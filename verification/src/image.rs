//! Thumbnails and resized copies: where the thumbnail of a source path is
//! cached, how large a rendition is, and the decoding, resampling and encoding
//! that produce it. The caller reads and writes the files.

use crate::digest::{cache_key, cache_key_of};
use crate::path::{ascii_lowercase, chars_of, extension, extension_bounds, lowercase_range, spells};
use vstd::prelude::*;

verus! {

/// The longest edge of a thumbnail, in pixels.
pub const THUMBNAIL_SIZE: u32 = 200;

/// What a decode error says of a path whose extension names no format that
/// can be read.
pub const UNKNOWN_FORMAT: &'static str = "the image format could not be determined";

/// The size of an image in pixels.
#[derive(Debug, Clone, Copy, PartialEq, Eq)]
pub struct ImageDimensions {
    pub width: u32,
    pub height: u32,
}

/// A thumbnail: where its file lies and how large it is.
#[derive(Debug, Clone, PartialEq, Eq)]
pub struct ThumbnailResult {
    pub thumbnail_path: String,
    pub width: u32,
    pub height: u32,
}

/// What a request for a thumbnail comes to.
#[derive(Debug, Clone, PartialEq, Eq)]
pub struct Thumbnail {
    pub result: ThumbnailResult,
    /// The bytes of a thumbnail that was rendered for this request and is yet
    /// to be stored at `result.thumbnail_path`; `None` where the cached file
    /// was served.
    pub rendition: Option<Vec<u8>>,
}

/// What the caller found in the cache for a thumbnail.
pub enum CacheLookup<'a> {
    /// The thumbnail's file exists and holds these bytes.
    Hit(&'a [u8]),
    /// No such file exists; the source image holds these bytes.
    Miss(&'a [u8]),
}

/// A format that an image can be written in.
#[derive(Debug, Clone, Copy, PartialEq, Eq)]
pub enum OutputFormat {
    Jpeg,
    Png,
    WebP,
}

/// A format that an image can be read in.
#[derive(Debug, Clone, Copy, PartialEq, Eq)]
pub enum SourceFormat {
    Jpeg,
    Png,
    WebP,
}

/// The shape of a decoded image: its size in pixels, and how many bits hold
/// one pixel.
#[derive(Debug, Clone, Copy, PartialEq, Eq)]
pub struct Shape {
    pub width: u32,
    pub height: u32,
    pub bits_per_pixel: u16,
}

/// A resized copy of an image, encoded.
#[derive(Debug, Clone, PartialEq, Eq)]
pub struct EncodedImage {
    pub bytes: Vec<u8>,
    pub width: u32,
    pub height: u32,
    pub format: OutputFormat,
}

/// A file in the cache directory.
#[derive(Debug, Clone, PartialEq, Eq)]
pub struct CacheEntry {
    pub path: String,
    /// Whether the entry is a regular file.
    pub is_file: bool,
    /// Its size in bytes.
    pub size: u64,
}

/// Why an image could not be read, resized or written.
#[derive(Debug, Clone, PartialEq, Eq)]
pub enum ImageError {
    /// The extension of the path announces no format that can be read, or
    /// the bytes are no image of the format that it announces; the text says
    /// which, in the decoder's words where it is the second.
    Decode(String),
    /// The extension of the path to write, given here, names no supported
    /// format. It is empty where the path has no extension.
    UnsupportedFormat(String),
    /// The image could not be encoded; the text says why.
    Encode(String),
    /// The image is too large to be resampled in memory.
    TooLarge,
}

/// How pixels are resampled when an image is resized.
#[derive(Debug, Clone, Copy, PartialEq, Eq)]
pub enum ResampleFilter {
    Nearest,
    Triangle,
    CatmullRom,
    Gaussian,
    Lanczos3,
}

/// `image::DynamicImage`, the pixels of a decoded image: carried through as
/// they are.
#[verifier::external_type_specification]
#[verifier::external_body]
pub struct ExDynamicImage(::image::DynamicImage);

/// A decoded image together with its shape.
struct Picture {
    width: u32,
    height: u32,
    bits_per_pixel: u16,
    pixels: ::image::DynamicImage,
}

/// The format that a file extension announces, letter case aside: jpg, jpeg
/// and jfif, png and apng, webp. Any other extension announces no format that
/// can be read.
pub open spec fn source_format(extension: Seq<char>) -> Option<SourceFormat> {
    let lower = ascii_lowercase(extension);
    if lower == "jpg"@ || lower == "jpeg"@ || lower == "jfif"@ {
        Some(SourceFormat::Jpeg)
    } else if lower == "png"@ || lower == "apng"@ {
        Some(SourceFormat::Png)
    } else if lower == "webp"@ {
        Some(SourceFormat::WebP)
    } else {
        None
    }
}

/// The shape of the image that bytes decode to in a format, or `None` where
/// they do not decode.
pub uninterp spec fn decoded_shape(format: SourceFormat, bytes: Seq<u8>) -> Option<Shape>;

/// The size that an image of `width` by `height` pixels is given when it is
/// scaled, its aspect ratio kept, to the largest size within `max_width` by
/// `max_height`.
pub uninterp spec fn fitted_size(width: u32, height: u32, max_width: u32, max_height: u32) -> (
    u32,
    u32,
);

/// Whether an image `source_width` pixels wide can be resampled to `width` by
/// `height` pixels: the buffers that resampling allocates, sixteen bytes to
/// the pixel, stay within what can be allocated.
pub open spec fn fits_in_memory(source_width: u32, width: u32, height: u32) -> bool {
    source_width * height * 16 <= isize::MAX && width * height * 16 <= isize::MAX
}

/// Whether `scaled` is `edge * bound / along` brought to a whole number next
/// to it, and to 1 where that is 0: what becomes of one edge of an image when
/// the other, `along`, is scaled to `bound`.
pub open spec fn is_scaled_edge(scaled: u32, edge: u32, along: u32, bound: u32) -> bool {
    edge * bound < (scaled + 1) * along && (scaled == 1 || (scaled - 1) * along < edge * bound)
}

/// Whether bytes decode, in a format, to an image of the size given or not
/// at all.
pub open spec fn decodes_only_to(format: SourceFormat, bytes: Seq<u8>, size: (u32, u32)) -> bool {
    match decoded_shape(format, bytes) {
        Some(shape) => (shape.width, shape.height) == size,
        None => true,
    }
}

/// Whether an image of a shape can be encoded in a format. A JPEG has edges
/// from 1 to 65535, a WebP edges from 1 to 16384, and a PNG no edge of zero
/// and no pixels of floating-point samples, which take more than 64 bits.
pub open spec fn encodes(
    width: u32,
    height: u32,
    bits_per_pixel: u16,
    format: OutputFormat,
) -> bool {
    match format {
        OutputFormat::Jpeg => 1 <= width <= 65535 && 1 <= height <= 65535,
        OutputFormat::Png => width >= 1 && height >= 1 && bits_per_pixel <= 64,
        OutputFormat::WebP => 1 <= width <= 16384 && 1 <= height <= 16384,
    }
}

/// `image::ImageFormat::from_extension`, for the formats that this library
/// reads: the crate lower-cases the extension the ASCII way and looks it up
/// in a fixed list. An extension that the crate does not know, or that names
/// another format, gives `None`.
#[verifier::external_body]
fn format_of(extension: &str) -> (r: Option<SourceFormat>)
    ensures
        r == source_format(extension@),
{
    match ::image::ImageFormat::from_extension(extension) {
        Some(::image::ImageFormat::Jpeg) => Some(SourceFormat::Jpeg),
        Some(::image::ImageFormat::Png) => Some(SourceFormat::Png),
        Some(::image::ImageFormat::WebP) => Some(SourceFormat::WebP),
        _ => None,
    }
}

/// `image::load_from_memory_with_format`: decodes the bytes in the format.
/// Bytes that do not decode are an error, given as the text of the crate's
/// error. Whether and to what shape the bytes decode is a function of the
/// format and the bytes, named `decoded_shape`.
#[verifier::external_body]
fn decode_as(format: SourceFormat, bytes: &[u8]) -> (r: Result<Picture, String>)
    ensures
        match r {
            Ok(picture) => decoded_shape(format, bytes@) == Some(
                Shape {
                    width: picture.width,
                    height: picture.height,
                    bits_per_pixel: picture.bits_per_pixel,
                },
            ),
            Err(_) => decoded_shape(format, bytes@) is None,
        },
{
    let codec = match format {
        SourceFormat::Jpeg => ::image::ImageFormat::Jpeg,
        SourceFormat::Png => ::image::ImageFormat::Png,
        SourceFormat::WebP => ::image::ImageFormat::WebP,
    };
    let pixels = ::image::load_from_memory_with_format(bytes, codec).map_err(|e| e.to_string())?;
    let bits_per_pixel = pixels.color().bits_per_pixel();
    Ok(Picture { width: pixels.width(), height: pixels.height(), bits_per_pixel, pixels })
}

/// `image::DynamicImage::resize`: a copy scaled, its aspect ratio kept, to
/// the largest size within the bounds, with pixels of the same kind. The
/// crate computes the size from the four numbers alone; it is named
/// `fitted_size`. Where neither bound is zero the size lies within the bounds
/// and has no edge of zero. The edge that needs the smaller scale is given
/// exactly its bound; the other is scaled by the same ratio and rounded, in
/// floating point, so that it comes to a whole number next to the exact
/// quotient, and to 1 in place of 0. The crate panics where a buffer of the
/// resampling cannot be allocated, which `fits_in_memory` rules out.
#[verifier::external_body]
fn resize_to_fit(
    picture: &Picture,
    max_width: u32,
    max_height: u32,
    filter: ResampleFilter,
) -> (r: Picture)
    requires
        max_width >= 1,
        max_height >= 1,
        fits_in_memory(picture.width, max_width, max_height),
    ensures
        (r.width, r.height) == fitted_size(picture.width, picture.height, max_width, max_height),
        1 <= r.width <= max_width,
        1 <= r.height <= max_height,
        picture.width >= 1 && picture.width * max_height >= picture.height * max_width
            ==> r.width == max_width && is_scaled_edge(
            r.height,
            picture.height,
            picture.width,
            max_width,
        ),
        picture.height >= 1 && picture.height * max_width >= picture.width * max_height
            ==> r.height == max_height && is_scaled_edge(
            r.width,
            picture.width,
            picture.height,
            max_height,
        ),
        r.bits_per_pixel == picture.bits_per_pixel,
{
    let kind = match filter {
        ResampleFilter::Nearest => ::image::imageops::FilterType::Nearest,
        ResampleFilter::Triangle => ::image::imageops::FilterType::Triangle,
        ResampleFilter::CatmullRom => ::image::imageops::FilterType::CatmullRom,
        ResampleFilter::Gaussian => ::image::imageops::FilterType::Gaussian,
        ResampleFilter::Lanczos3 => ::image::imageops::FilterType::Lanczos3,
    };
    let pixels = picture.pixels.resize(max_width, max_height, kind);
    let bits_per_pixel = pixels.color().bits_per_pixel();
    Picture { width: pixels.width(), height: pixels.height(), bits_per_pixel, pixels }
}

/// `image::DynamicImage::resize_exact`: a copy of exactly the given size, the
/// aspect ratio not kept, with pixels of the same kind. The crate panics
/// where a buffer of the resampling cannot be allocated, which
/// `fits_in_memory` rules out.
#[verifier::external_body]
fn resize_exact(picture: &Picture, width: u32, height: u32, filter: ResampleFilter) -> (r: Picture)
    requires
        fits_in_memory(picture.width, width, height),
    ensures
        r.width == width,
        r.height == height,
        r.bits_per_pixel == picture.bits_per_pixel,
{
    let kind = match filter {
        ResampleFilter::Nearest => ::image::imageops::FilterType::Nearest,
        ResampleFilter::Triangle => ::image::imageops::FilterType::Triangle,
        ResampleFilter::CatmullRom => ::image::imageops::FilterType::CatmullRom,
        ResampleFilter::Gaussian => ::image::imageops::FilterType::Gaussian,
        ResampleFilter::Lanczos3 => ::image::imageops::FilterType::Lanczos3,
    };
    let pixels = picture.pixels.resize_exact(width, height, kind);
    let bits_per_pixel = pixels.color().bits_per_pixel();
    Picture { width: pixels.width(), height: pixels.height(), bits_per_pixel, pixels }
}

/// `image::DynamicImage::write_to` into memory: the image encoded in the
/// format, or the text of the crate's error. The crate converts the pixels
/// to a kind that the format holds where it can, and refuses a shape that
/// the format cannot hold; writing to memory adds no failure of its own. So
/// the image is encoded exactly where `encodes` holds of its shape. A JPEG
/// carries the two edges in its frame header, which is where the crate's
/// decoder takes the size from: bytes written as JPEG decode to the size of
/// the image, where they decode.
#[verifier::external_body]
fn encode(picture: &Picture, format: OutputFormat) -> (r: Result<Vec<u8>, String>)
    ensures
        r is Ok <==> encodes(picture.width, picture.height, picture.bits_per_pixel, format),
        format == OutputFormat::Jpeg ==> match r {
            Ok(bytes) => decodes_only_to(
                SourceFormat::Jpeg,
                bytes@,
                (picture.width, picture.height),
            ),
            Err(_) => true,
        },
{
    let target = match format {
        OutputFormat::Jpeg => ::image::ImageFormat::Jpeg,
        OutputFormat::Png => ::image::ImageFormat::Png,
        OutputFormat::WebP => ::image::ImageFormat::WebP,
    };
    let mut out = std::io::Cursor::new(Vec::new());
    picture.pixels.write_to(&mut out, target).map(|_| out.into_inner()).map_err(|e| e.to_string())
}

/// The name of the file that caches the thumbnail of a source path: the
/// cache key of the path, and the extension of the thumbnail format.
pub open spec fn thumbnail_name(source_path: Seq<char>) -> Seq<char> {
    cache_key(source_path) + ".jpg"@
}

/// The extension of a path as it is written, empty where the path has none.
pub open spec fn written_extension(path: Seq<char>) -> Seq<char> {
    match extension(path) {
        Some(ext) => ext,
        None => Seq::empty(),
    }
}

/// The format that a path to write asks for by its extension, letter case
/// aside: jpg and jpeg, png, webp. Any other extension, and none, asks for
/// no format.
pub open spec fn output_format(path: Seq<char>) -> Option<OutputFormat> {
    match extension(path) {
        Some(ext) => {
            let lower = ascii_lowercase(ext);
            if lower == "jpg"@ || lower == "jpeg"@ {
                Some(OutputFormat::Jpeg)
            } else if lower == "png"@ {
                Some(OutputFormat::Png)
            } else if lower == "webp"@ {
                Some(OutputFormat::WebP)
            } else {
                None
            }
        },
        None => None,
    }
}

/// The shape of the image that a file holds, its format taken from the
/// extension of its path. `None` where the path has no extension, the
/// extension announces no format that can be read, or the bytes do not
/// decode in the format.
pub open spec fn source_shape(path: Seq<char>, bytes: Seq<u8>) -> Option<Shape> {
    match extension(path) {
        Some(ext) => match source_format(ext) {
            Some(format) => decoded_shape(format, bytes),
            None => None,
        },
        None => None,
    }
}

/// The size of the image that a file holds.
pub open spec fn source_size(path: Seq<char>, bytes: Seq<u8>) -> Option<(u32, u32)> {
    match source_shape(path, bytes) {
        Some(shape) => Some((shape.width, shape.height)),
        None => None,
    }
}

/// Whether a file of these bytes at the path holds an image of the size
/// given, or none that can be read.
pub open spec fn holds_only(path: Seq<char>, bytes: Seq<u8>, size: (u32, u32)) -> bool {
    match source_size(path, bytes) {
        Some(held) => held == size,
        None => true,
    }
}

/// Whether the extension of a path announces a JPEG.
pub open spec fn announces_jpeg(path: Seq<char>) -> bool {
    match extension(path) {
        Some(ext) => source_format(ext) == Some(SourceFormat::Jpeg),
        None => false,
    }
}

/// The size of the thumbnail of an image of `width` by `height` pixels.
pub open spec fn thumbnail_size(width: u32, height: u32) -> (u32, u32) {
    fitted_size(width, height, THUMBNAIL_SIZE, THUMBNAIL_SIZE)
}

/// What holds of the size of a thumbnail: no edge is zero or longer than
/// `THUMBNAIL_SIZE`; the longer edge of the source, where it is not zero,
/// comes to exactly `THUMBNAIL_SIZE`; and the shorter edge is scaled by the
/// same ratio, to a whole number next to the exact quotient.
pub open spec fn is_thumbnail_size(size: (u32, u32), source: (u32, u32)) -> bool {
    &&& 1 <= size.0 <= THUMBNAIL_SIZE
    &&& 1 <= size.1 <= THUMBNAIL_SIZE
    &&& source.0 >= 1 && source.0 >= source.1 ==> size.0 == THUMBNAIL_SIZE && is_scaled_edge(
        size.1,
        source.1,
        source.0,
        THUMBNAIL_SIZE,
    )
    &&& source.1 >= 1 && source.1 >= source.0 ==> size.1 == THUMBNAIL_SIZE && is_scaled_edge(
        size.0,
        source.0,
        source.1,
        THUMBNAIL_SIZE,
    )
}

/// Whether a thumbnail is one that was rendered from a source of the size
/// given, to be stored at the path: its size is that of the source scaled to
/// the thumbnail size, and the bytes to store hold, under a name that
/// announces a JPEG, no image of another size.
pub open spec fn is_rendered_thumbnail(
    thumbnail: Thumbnail,
    thumbnail_path: Seq<char>,
    source: (u32, u32),
) -> bool {
    let size = (thumbnail.result.width, thumbnail.result.height);
    &&& thumbnail.result.thumbnail_path@ == thumbnail_path
    &&& size == thumbnail_size(source.0, source.1)
    &&& is_thumbnail_size(size, source)
    &&& match thumbnail.rendition {
        Some(bytes) => announces_jpeg(thumbnail_path) ==> holds_only(
            thumbnail_path,
            bytes@,
            size,
        ),
        None => false,
    }
}

/// `edge * numerator / denominator`, rounded down and held to 32 bits. Over
/// a zero denominator the quotient is unbounded where both factors are
/// positive, and zero otherwise.
pub open spec fn scaled_edge(edge: u32, numerator: u32, denominator: u32) -> u32 {
    if denominator == 0 {
        if edge > 0 && numerator > 0 {
            u32::MAX
        } else {
            0
        }
    } else if edge * numerator / (denominator as int) > u32::MAX {
        u32::MAX
    } else {
        (edge * numerator / (denominator as int)) as u32
    }
}

/// The size that a resize to the requested width and height gives. Both
/// given: exactly that size. One given: the other follows from the source's
/// aspect ratio. Neither: the size of the source.
pub open spec fn target_size(source: (u32, u32), width: Option<u32>, height: Option<u32>) -> (
    u32,
    u32,
) {
    match (width, height) {
        (Some(w), Some(h)) => (w, h),
        (Some(w), None) => (w, scaled_edge(w, source.1, source.0)),
        (None, Some(h)) => (scaled_edge(h, source.0, source.1), h),
        (None, None) => source,
    }
}

/// The paths of the cache's regular files, in the order of the listing.
pub open spec fn regular_files(entries: Seq<CacheEntry>) -> Seq<Seq<char>>
    decreases entries.len(),
{
    if entries.len() == 0 {
        Seq::empty()
    } else if entries.last().is_file {
        regular_files(entries.drop_last()).push(entries.last().path@)
    } else {
        regular_files(entries.drop_last())
    }
}

/// The bytes that the cache's regular files hold together.
pub open spec fn regular_bytes(entries: Seq<CacheEntry>) -> int
    decreases entries.len(),
{
    if entries.len() == 0 {
        0
    } else if entries.last().is_file {
        regular_bytes(entries.drop_last()) + entries.last().size
    } else {
        regular_bytes(entries.drop_last())
    }
}

/// The texts of a list of strings.
pub open spec fn texts_of(strings: Seq<String>) -> Seq<Seq<char>> {
    strings.map_values(|s: String| s@)
}

/// The bytes of the files in a longer listing are no fewer.
pub proof fn lemma_regular_bytes_grow(entries: Seq<CacheEntry>, n: int)
    requires
        0 <= n <= entries.len(),
    ensures
        0 <= regular_bytes(entries.take(n)) <= regular_bytes(entries),
    decreases entries.len() - n,
{
    if n == 0 {
        lemma_regular_bytes_nonnegative(entries);
    } else if n < entries.len() {
        lemma_regular_bytes_grow(entries, n + 1);
        assert(entries.take(n + 1).drop_last() =~= entries.take(n));
        lemma_regular_bytes_nonnegative(entries.take(n));
    } else {
        assert(entries.take(n) =~= entries);
        lemma_regular_bytes_nonnegative(entries);
    }
}

/// The bytes of the files in a listing are not negative.
pub proof fn lemma_regular_bytes_nonnegative(entries: Seq<CacheEntry>)
    ensures
        regular_bytes(entries) >= 0,
    decreases entries.len(),
{
    if entries.len() > 0 {
        lemma_regular_bytes_nonnegative(entries.drop_last());
    }
}

/// Whether resampling to the size stays within memory.
fn check_fits_in_memory(source_width: u32, width: u32, height: u32) -> (r: bool)
    ensures
        r == fits_in_memory(source_width, width, height),
{
    let limit: u128 = isize::MAX as u128;
    let h: u128 = height as u128;
    assert(source_width * height < 0x1_0000_0000_0000_0000 && width * height
        < 0x1_0000_0000_0000_0000) by (nonlinear_arith)
        requires
            0 <= source_width < 0x1_0000_0000,
            0 <= width < 0x1_0000_0000,
            0 <= height < 0x1_0000_0000,
    ;
    (source_width as u128) * h * 16 <= limit && (width as u128) * h * 16 <= limit
}

/// Decodes a file in the format that the extension of its path announces.
fn decode_file(path: &str, bytes: &[u8]) -> (r: Result<Picture, ImageError>)
    ensures
        match source_shape(path@, bytes@) {
            Some(shape) => r matches Ok(picture) && picture.width == shape.width && picture.height
                == shape.height && picture.bits_per_pixel == shape.bits_per_pixel,
            None => r matches Err(ImageError::Decode(_)),
        },
{
    let chars = chars_of(path);
    let format = match extension_bounds(&chars) {
        Some((from, to)) => format_of(path.substring_char(from, to)),
        None => None,
    };
    match format {
        Some(format) => match decode_as(format, bytes) {
            Ok(picture) => Ok(picture),
            Err(detail) => Err(ImageError::Decode(detail)),
        },
        None => Err(ImageError::Decode(UNKNOWN_FORMAT.to_owned())),
    }
}

/// Requests for the thumbnail of one source path are served from one file:
/// the name of the cached file depends on the path alone.
pub proof fn law_one_thumbnail_for_a_source_path(first: Seq<char>, second: Seq<char>)
    requires
        first == second,
    ensures
        thumbnail_name(first) == thumbnail_name(second),
{
}

/// A thumbnail that was rendered and stored is served, by a later request
/// that finds it, with the size reported when it was rendered: what
/// `generate_thumbnail` hands back on a miss holds no image of another size.
pub proof fn law_a_stored_thumbnail_keeps_its_size(
    thumbnail_path: Seq<char>,
    rendition: Seq<u8>,
    rendered: (u32, u32),
    served: (u32, u32),
)
    requires
        holds_only(thumbnail_path, rendition, rendered),
        source_size(thumbnail_path, rendition) == Some(served),
    ensures
        served == rendered,
{
}

/// Thumbnails, resized copies and the thumbnail cache.
pub struct ImageService;

impl ImageService {
    /// The size of the image that a file holds.
    pub fn get_dimensions(path: &str, bytes: &[u8]) -> (r: Result<ImageDimensions, ImageError>)
        ensures
            match source_size(path@, bytes@) {
                Some((width, height)) => r == Ok::<ImageDimensions, ImageError>(
                    ImageDimensions { width, height },
                ),
                None => r matches Err(ImageError::Decode(_)),
            },
    {
        match decode_file(path, bytes) {
            Ok(picture) => Ok(ImageDimensions { width: picture.width, height: picture.height }),
            Err(e) => Err(e),
        }
    }

    /// The cache key of a source path: the SHA-256 digest of the path, in
    /// hexadecimal. The same path gives the same key in every process.
    pub fn hash_file_path(path: &str) -> (key: String)
        ensures
            key@ == cache_key(path@),
            key@.len() == 64,
    {
        cache_key_of(path)
    }

    /// The name of the file in the cache directory that holds the thumbnail
    /// of a source path.
    pub fn thumbnail_file_name(image_path: &str) -> (name: String)
        ensures
            name@ == thumbnail_name(image_path@),
    {
        cache_key_of(image_path).concat(".jpg")
    }

    /// The thumbnail of an image, given what the caller found at
    /// `thumbnail_path`, the place of the thumbnail in the cache.
    ///
    /// On a hit the cached file is decoded and served as it is: nothing is
    /// rendered, and the source is not looked at. On a miss the source is
    /// decoded, scaled with its aspect ratio kept so that its longer edge
    /// comes to `THUMBNAIL_SIZE`, with a Lanczos filter, and encoded as JPEG;
    /// the bytes are handed back for the caller to store at `thumbnail_path`.
    /// A source that decodes always has its thumbnail, unless it is too wide
    /// to be resampled in memory. Once stored under a name that announces a
    /// JPEG, the thumbnail is served by later requests with the size that
    /// was reported when it was rendered.
    pub fn generate_thumbnail(image_path: &str, thumbnail_path: &str, lookup: CacheLookup) -> (r:
        Result<Thumbnail, ImageError>)
        ensures
            match lookup {
                CacheLookup::Hit(cached) => match source_size(thumbnail_path@, cached@) {
                    Some((width, height)) => r matches Ok(t) && t.result.thumbnail_path@
                        == thumbnail_path@ && t.result.width == width && t.result.height == height
                        && t.rendition is None,
                    None => r matches Err(ImageError::Decode(_)),
                },
                CacheLookup::Miss(source) => match source_size(image_path@, source@) {
                    Some((width, height)) => if fits_in_memory(
                        width,
                        THUMBNAIL_SIZE,
                        THUMBNAIL_SIZE,
                    ) {
                        r matches Ok(t) && is_rendered_thumbnail(
                            t,
                            thumbnail_path@,
                            (width, height),
                        )
                    } else {
                        r matches Err(ImageError::TooLarge)
                    },
                    None => r matches Err(ImageError::Decode(_)),
                },
            },
    {
        match lookup {
            CacheLookup::Hit(cached) => {
                let picture = decode_file(thumbnail_path, cached)?;
                Ok(
                    Thumbnail {
                        result: ThumbnailResult {
                            thumbnail_path: thumbnail_path.to_owned(),
                            width: picture.width,
                            height: picture.height,
                        },
                        rendition: None,
                    },
                )
            },
            CacheLookup::Miss(source) => {
                let picture = decode_file(image_path, source)?;
                if !check_fits_in_memory(picture.width, THUMBNAIL_SIZE, THUMBNAIL_SIZE) {
                    return Err(ImageError::TooLarge);
                }
                let small = resize_to_fit(
                    &picture,
                    THUMBNAIL_SIZE,
                    THUMBNAIL_SIZE,
                    ResampleFilter::Lanczos3,
                );
                match encode(&small, OutputFormat::Jpeg) {
                    Ok(bytes) => Ok(
                        Thumbnail {
                            result: ThumbnailResult {
                                thumbnail_path: thumbnail_path.to_owned(),
                                width: small.width,
                                height: small.height,
                            },
                            rendition: Some(bytes),
                        },
                    ),
                    Err(detail) => Err(ImageError::Encode(detail)),
                }
            },
        }
    }

    /// The size that a resize of an image of the given size comes to.
    pub fn target_dimensions(
        source: ImageDimensions,
        width: Option<u32>,
        height: Option<u32>,
    ) -> (r: ImageDimensions)
        ensures
            (r.width, r.height) == target_size((source.width, source.height), width, height),
    {
        match (width, height) {
            (Some(w), Some(h)) => ImageDimensions { width: w, height: h },
            (Some(w), None) => ImageDimensions {
                width: w,
                height: Self::scale_edge(w, source.height, source.width),
            },
            (None, Some(h)) => ImageDimensions {
                width: Self::scale_edge(h, source.width, source.height),
                height: h,
            },
            (None, None) => source,
        }
    }

    /// One edge scaled by the ratio of two others, rounded down.
    fn scale_edge(edge: u32, numerator: u32, denominator: u32) -> (r: u32)
        ensures
            r == scaled_edge(edge, numerator, denominator),
    {
        if denominator == 0 {
            if edge > 0 && numerator > 0 {
                u32::MAX
            } else {
                0
            }
        } else {
            assert(edge * numerator < 0x1_0000_0000_0000_0000) by (nonlinear_arith)
                requires
                    0 <= edge < 0x1_0000_0000,
                    0 <= numerator < 0x1_0000_0000,
            ;
            let quotient: u64 = (edge as u64) * (numerator as u64) / (denominator as u64);
            if quotient > u32::MAX as u64 {
                u32::MAX
            } else {
                quotient as u32
            }
        }
    }

    /// A copy of an image in another size and format. With both `width` and
    /// `height` the copy has exactly that size; with one of them the other
    /// follows from the aspect ratio of the source; with neither the image is
    /// not resized. The format is that of the extension of `dest_path`, and an
    /// extension that names none of the supported formats is an error. The
    /// copy is made whenever the format can hold an image of its shape.
    pub fn resize_image(
        source_path: &str,
        source: &[u8],
        dest_path: &str,
        width: Option<u32>,
        height: Option<u32>,
    ) -> (r: Result<EncodedImage, ImageError>)
        ensures
            match source_shape(source_path@, source@) {
                Some(shape) => {
                    let target = target_size((shape.width, shape.height), width, height);
                    if (width is Some || height is Some) && !fits_in_memory(
                        shape.width,
                        target.0,
                        target.1,
                    ) {
                        r matches Err(ImageError::TooLarge)
                    } else {
                        match output_format(dest_path@) {
                            Some(format) => if encodes(
                                target.0,
                                target.1,
                                shape.bits_per_pixel,
                                format,
                            ) {
                                r matches Ok(out) && out.width == target.0 && out.height
                                    == target.1 && out.format == format
                            } else {
                                r matches Err(ImageError::Encode(_))
                            },
                            None => r matches Err(ImageError::UnsupportedFormat(ext)) && ext@
                                == written_extension(dest_path@),
                        }
                    }
                },
                None => r matches Err(ImageError::Decode(_)),
            },
    {
        let picture = decode_file(source_path, source)?;
        let resized = if width.is_some() || height.is_some() {
            let target = Self::target_dimensions(
                ImageDimensions { width: picture.width, height: picture.height },
                width,
                height,
            );
            if !check_fits_in_memory(picture.width, target.width, target.height) {
                return Err(ImageError::TooLarge);
            }
            resize_exact(&picture, target.width, target.height, ResampleFilter::Lanczos3)
        } else {
            picture
        };
        let format = Self::image_format_from_path(dest_path)?;
        match encode(&resized, format) {
            Ok(bytes) => Ok(
                EncodedImage { bytes, width: resized.width, height: resized.height, format },
            ),
            Err(detail) => Err(ImageError::Encode(detail)),
        }
    }

    /// The format that a path to write asks for by its extension.
    pub fn image_format_from_path(path: &str) -> (r: Result<OutputFormat, ImageError>)
        ensures
            match output_format(path@) {
                Some(format) => r == Ok::<OutputFormat, ImageError>(format),
                None => r matches Err(ImageError::UnsupportedFormat(ext)) && ext@
                    == written_extension(path@),
            },
    {
        let chars = chars_of(path);
        match extension_bounds(&chars) {
            Some((from, to)) => {
                let lower = lowercase_range(&chars, from, to);
                if spells(&lower, "jpg") || spells(&lower, "jpeg") {
                    Ok(OutputFormat::Jpeg)
                } else if spells(&lower, "png") {
                    Ok(OutputFormat::Png)
                } else if spells(&lower, "webp") {
                    Ok(OutputFormat::WebP)
                } else {
                    Err(ImageError::UnsupportedFormat(path.substring_char(from, to).to_owned()))
                }
            },
            None => Err(ImageError::UnsupportedFormat(String::new())),
        }
    }

    /// The files that clearing the cache removes: every regular file of the
    /// listing of the cache directory, and nothing below it. Their number is
    /// the count that clearing reports.
    pub fn clear_cache(entries: &Vec<CacheEntry>) -> (doomed: Vec<String>)
        ensures
            texts_of(doomed@) == regular_files(entries@),
    {
        let mut doomed: Vec<String> = Vec::new();
        let mut i: usize = 0;
        while i < entries.len()
            invariant
                i <= entries.len(),
                texts_of(doomed@) == regular_files(entries@.take(i as int)),
            decreases entries.len() - i,
        {
            proof {
                assert(entries@.take(i + 1).drop_last() =~= entries@.take(i as int));
            }
            if entries[i].is_file {
                doomed.push(entries[i].path.clone());
                assert(texts_of(doomed@) =~= regular_files(entries@.take(i + 1)));
            }
            i = i + 1;
        }
        assert(entries@.take(entries.len() as int) =~= entries@);
        doomed
    }

    /// The size of the cache: the bytes of the regular files of the listing
    /// of the cache directory together, or `None` where their sum is not a
    /// 64-bit number.
    pub fn get_cache_size(entries: &Vec<CacheEntry>) -> (r: Option<u64>)
        ensures
            match r {
                Some(total) => total == regular_bytes(entries@),
                None => regular_bytes(entries@) > u64::MAX,
            },
    {
        let mut total: u64 = 0;
        let mut i: usize = 0;
        while i < entries.len()
            invariant
                i <= entries.len(),
                total == regular_bytes(entries@.take(i as int)),
            decreases entries.len() - i,
        {
            proof {
                assert(entries@.take(i + 1).drop_last() =~= entries@.take(i as int));
            }
            if entries[i].is_file {
                match total.checked_add(entries[i].size) {
                    Some(sum) => {
                        total = sum;
                    },
                    None => {
                        proof {
                            lemma_regular_bytes_grow(entries@, i + 1);
                        }
                        return None;
                    },
                }
            }
            i = i + 1;
        }
        assert(entries@.take(entries.len() as int) =~= entries@);
        Some(total)
    }
}

} // verus!
