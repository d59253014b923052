use photo_manager::digest::{cache_key_of, to_hex};
use photo_manager::image::{
    CacheEntry, CacheLookup, EncodedImage, ImageDimensions, ImageError, ImageService, OutputFormat,
    Thumbnail, ThumbnailResult, THUMBNAIL_SIZE,
};

fn picture(width: u32, height: u32, format: image::ImageFormat) -> Vec<u8> {
    let mut pixels = image::RgbImage::new(width, height);
    for (x, y, pixel) in pixels.enumerate_pixels_mut() {
        *pixel = image::Rgb([(x % 256) as u8, (y % 256) as u8, ((x + y) % 256) as u8]);
    }
    let mut out = std::io::Cursor::new(Vec::new());
    image::DynamicImage::ImageRgb8(pixels).write_to(&mut out, format).unwrap();
    out.into_inner()
}

fn size_of(bytes: &[u8], format: image::ImageFormat) -> (u32, u32) {
    let decoded = image::load_from_memory_with_format(bytes, format).unwrap();
    (decoded.width(), decoded.height())
}

fn cache_entry(path: &str, is_file: bool, size: u64) -> CacheEntry {
    CacheEntry { path: path.to_string(), is_file, size }
}

#[test]
fn hex_writes_two_lower_case_digits_per_byte() {
    assert_eq!(to_hex(&[]), "");
    assert_eq!(to_hex(&[0x00, 0x0f, 0xa0, 0xff, 0x5c]), "000fa0ff5c");
}

#[test]
fn cache_key_is_the_sha256_of_the_path() {
    assert_eq!(
        ImageService::hash_file_path("abc"),
        "ba7816bf8f01cfea414140de5dae2223b00361a396177a9cb410ff61f20015ad"
    );
    assert_eq!(
        ImageService::hash_file_path(""),
        "e3b0c44298fc1c149afbf4c8996fb92427ae41e4649b934ca495991b7852b855"
    );
    assert_eq!(cache_key_of("abc"), ImageService::hash_file_path("abc"));
}

#[test]
fn cache_key_hashes_the_utf8_bytes() {
    let path = "/photos/\u{e9}t\u{e9}/plage.jpg";
    let digest = <sha2::Sha256 as sha2::Digest>::digest(path.as_bytes());
    let expected: String = digest.iter().map(|b| format!("{:02x}", b)).collect();
    assert_eq!(ImageService::hash_file_path(path), expected);
    assert_eq!(ImageService::hash_file_path(path).len(), 64);
}

#[test]
fn thumbnail_name_is_key_and_extension() {
    assert_eq!(
        ImageService::thumbnail_file_name("abc"),
        "ba7816bf8f01cfea414140de5dae2223b00361a396177a9cb410ff61f20015ad.jpg"
    );
}

#[test]
fn same_source_path_same_thumbnail_name() {
    let first = ImageService::thumbnail_file_name("/photos/a.jpg");
    let second = ImageService::thumbnail_file_name("/photos/a.jpg");
    assert_eq!(first, second);
    assert_ne!(first, ImageService::thumbnail_file_name("/photos/b.jpg"));
}

#[test]
fn dimensions_of_an_image() {
    let bytes = picture(40, 30, image::ImageFormat::Png);
    assert_eq!(
        ImageService::get_dimensions("/photos/a.png", &bytes),
        Ok(ImageDimensions { width: 40, height: 30 })
    );
    let bytes = picture(17, 9, image::ImageFormat::Jpeg);
    assert_eq!(
        ImageService::get_dimensions("a.JPG", &bytes),
        Ok(ImageDimensions { width: 17, height: 9 })
    );
}

#[test]
fn format_is_taken_from_the_extension() {
    let bytes = picture(40, 30, image::ImageFormat::Png);
    assert!(matches!(
        ImageService::get_dimensions("/photos/a.jpg", &bytes),
        Err(ImageError::Decode(_))
    ));
}

#[test]
fn bytes_that_do_not_decode_are_a_decode_error() {
    assert!(matches!(
        ImageService::get_dimensions("/photos/a.png", b"no image"),
        Err(ImageError::Decode(_))
    ));
    let bytes = picture(40, 30, image::ImageFormat::Png);
    assert!(matches!(ImageService::get_dimensions("/photos/a", &bytes), Err(ImageError::Decode(_))));
    assert!(matches!(ImageService::get_dimensions("/photos/a.", &bytes), Err(ImageError::Decode(_))));
    assert!(matches!(
        ImageService::get_dimensions("/photos/a.xyz", &bytes),
        Err(ImageError::Decode(_))
    ));
}

#[test]
fn thumbnail_of_a_wide_image() {
    let source = picture(400, 100, image::ImageFormat::Png);
    let thumbnail = ImageService::generate_thumbnail(
        "/photos/wide.png",
        "/cache/k.jpg",
        CacheLookup::Miss(&source),
    )
    .unwrap();
    assert_eq!(
        thumbnail.result,
        ThumbnailResult { thumbnail_path: "/cache/k.jpg".to_string(), width: 200, height: 50 }
    );
    let rendition = thumbnail.rendition.unwrap();
    assert_eq!(size_of(&rendition, image::ImageFormat::Jpeg), (200, 50));
}

#[test]
fn thumbnail_of_a_tall_image() {
    let source = picture(300, 600, image::ImageFormat::Jpeg);
    let thumbnail = ImageService::generate_thumbnail(
        "/photos/tall.jpeg",
        "/cache/k.jpg",
        CacheLookup::Miss(&source),
    )
    .unwrap();
    assert_eq!((thumbnail.result.width, thumbnail.result.height), (100, 200));
    assert!(thumbnail.result.width <= THUMBNAIL_SIZE && thumbnail.result.height <= THUMBNAIL_SIZE);
}

#[test]
fn thumbnail_of_a_small_image_fills_the_bound() {
    let source = picture(10, 5, image::ImageFormat::Png);
    let thumbnail =
        ImageService::generate_thumbnail("s.png", "/cache/k.jpg", CacheLookup::Miss(&source))
            .unwrap();
    assert_eq!((thumbnail.result.width, thumbnail.result.height), (200, 100));
}

#[test]
fn thumbnail_of_an_image_of_the_bound() {
    let source = picture(200, 200, image::ImageFormat::Png);
    let thumbnail =
        ImageService::generate_thumbnail("s.png", "/cache/k.jpg", CacheLookup::Miss(&source))
            .unwrap();
    assert_eq!((thumbnail.result.width, thumbnail.result.height), (200, 200));
}

#[test]
fn cached_thumbnail_is_served_as_it_is() {
    let source = picture(400, 100, image::ImageFormat::Png);
    let first = ImageService::generate_thumbnail(
        "/photos/wide.png",
        "/cache/k.jpg",
        CacheLookup::Miss(&source),
    )
    .unwrap();
    let stored = first.rendition.clone().unwrap();
    let second = ImageService::generate_thumbnail(
        "/photos/wide.png",
        "/cache/k.jpg",
        CacheLookup::Hit(&stored),
    )
    .unwrap();
    assert_eq!(second, Thumbnail { result: first.result.clone(), rendition: None });
}

#[test]
fn cached_thumbnail_is_trusted_without_the_source() {
    let cached = picture(123, 45, image::ImageFormat::Jpeg);
    let thumbnail = ImageService::generate_thumbnail(
        "/photos/gone.png",
        "/cache/k.jpg",
        CacheLookup::Hit(&cached),
    )
    .unwrap();
    assert_eq!((thumbnail.result.width, thumbnail.result.height), (123, 45));
    assert_eq!(thumbnail.rendition, None);
}

#[test]
fn corrupt_cached_thumbnail_is_a_decode_error() {
    assert!(matches!(
        ImageService::generate_thumbnail("/photos/a.png", "/cache/k.jpg", CacheLookup::Hit(b"junk")),
        Err(ImageError::Decode(_))
    ));
}

#[test]
fn thumbnail_of_what_is_no_image_is_a_decode_error() {
    assert!(matches!(
        ImageService::generate_thumbnail("/photos/a.png", "/cache/k.jpg", CacheLookup::Miss(b"junk")),
        Err(ImageError::Decode(_))
    ));
}

#[test]
fn target_follows_the_aspect_ratio() {
    let source = ImageDimensions { width: 400, height: 100 };
    assert_eq!(
        ImageService::target_dimensions(source, Some(200), None),
        ImageDimensions { width: 200, height: 50 }
    );
    assert_eq!(
        ImageService::target_dimensions(source, None, Some(50)),
        ImageDimensions { width: 200, height: 50 }
    );
    assert_eq!(
        ImageService::target_dimensions(source, Some(200), Some(200)),
        ImageDimensions { width: 200, height: 200 }
    );
    assert_eq!(ImageService::target_dimensions(source, None, None), source);
}

#[test]
fn target_rounds_down() {
    let source = ImageDimensions { width: 3, height: 2 };
    assert_eq!(
        ImageService::target_dimensions(source, Some(100), None),
        ImageDimensions { width: 100, height: 66 }
    );
    assert_eq!(
        ImageService::target_dimensions(source, None, Some(1)),
        ImageDimensions { width: 1, height: 1 }
    );
    let source = ImageDimensions { width: 49, height: 1 };
    assert_eq!(
        ImageService::target_dimensions(source, Some(49), None),
        ImageDimensions { width: 49, height: 1 }
    );
    assert_eq!(
        ImageService::target_dimensions(source, Some(48), None),
        ImageDimensions { width: 48, height: 0 }
    );
}

#[test]
fn target_is_held_to_32_bits() {
    let source = ImageDimensions { width: 1, height: u32::MAX };
    assert_eq!(
        ImageService::target_dimensions(source, Some(2), None),
        ImageDimensions { width: 2, height: u32::MAX }
    );
    let flat = ImageDimensions { width: 0, height: 5 };
    assert_eq!(
        ImageService::target_dimensions(flat, Some(2), None),
        ImageDimensions { width: 2, height: u32::MAX }
    );
    assert_eq!(
        ImageService::target_dimensions(flat, Some(0), None),
        ImageDimensions { width: 0, height: 0 }
    );
    let empty = ImageDimensions { width: 0, height: 0 };
    assert_eq!(
        ImageService::target_dimensions(empty, None, Some(7)),
        ImageDimensions { width: 0, height: 7 }
    );
}

#[test]
fn resize_with_only_a_width_keeps_the_aspect_ratio() {
    let source = picture(400, 100, image::ImageFormat::Png);
    let out =
        ImageService::resize_image("/in/a.png", &source, "/out/a.png", Some(200), None).unwrap();
    assert_eq!((out.width, out.height, out.format), (200, 50, OutputFormat::Png));
    assert_eq!(size_of(&out.bytes, image::ImageFormat::Png), (200, 50));
}

#[test]
fn resize_with_only_a_height_keeps_the_aspect_ratio() {
    let source = picture(400, 100, image::ImageFormat::Png);
    let out =
        ImageService::resize_image("/in/a.png", &source, "/out/a.jpeg", None, Some(25)).unwrap();
    assert_eq!((out.width, out.height, out.format), (100, 25, OutputFormat::Jpeg));
    assert_eq!(size_of(&out.bytes, image::ImageFormat::Jpeg), (100, 25));
}

#[test]
fn resize_with_both_edges_is_exact() {
    let source = picture(400, 100, image::ImageFormat::Png);
    let out = ImageService::resize_image("/in/a.png", &source, "/out/a.JPG", Some(200), Some(200))
        .unwrap();
    assert_eq!((out.width, out.height, out.format), (200, 200, OutputFormat::Jpeg));
    assert_eq!(size_of(&out.bytes, image::ImageFormat::Jpeg), (200, 200));
}

#[test]
fn resize_with_no_edge_passes_the_image_through() {
    let source = picture(40, 10, image::ImageFormat::Jpeg);
    let out: EncodedImage =
        ImageService::resize_image("/in/a.jpg", &source, "/out/a.webp", None, None).unwrap();
    assert_eq!((out.width, out.height, out.format), (40, 10, OutputFormat::WebP));
    assert_eq!(size_of(&out.bytes, image::ImageFormat::WebP), (40, 10));
}

#[test]
fn output_format_follows_the_extension() {
    assert_eq!(ImageService::image_format_from_path("/out/a.jpg"), Ok(OutputFormat::Jpeg));
    assert_eq!(ImageService::image_format_from_path("/out/a.jpeg"), Ok(OutputFormat::Jpeg));
    assert_eq!(ImageService::image_format_from_path("/out/a.JPEG"), Ok(OutputFormat::Jpeg));
    assert_eq!(ImageService::image_format_from_path("/out/a.png"), Ok(OutputFormat::Png));
    assert_eq!(ImageService::image_format_from_path("/out/a.Png"), Ok(OutputFormat::Png));
    assert_eq!(ImageService::image_format_from_path("/out/a.webp"), Ok(OutputFormat::WebP));
}

#[test]
fn unsupported_output_extension_is_an_error() {
    assert_eq!(
        ImageService::image_format_from_path("/out/a.gif"),
        Err(ImageError::UnsupportedFormat("gif".to_string()))
    );
    assert_eq!(
        ImageService::image_format_from_path("/out/a.HEIC"),
        Err(ImageError::UnsupportedFormat("HEIC".to_string()))
    );
    assert_eq!(
        ImageService::image_format_from_path("/out.png/a"),
        Err(ImageError::UnsupportedFormat(String::new()))
    );
    assert_eq!(
        ImageService::image_format_from_path("/out/a."),
        Err(ImageError::UnsupportedFormat(String::new()))
    );
}

#[test]
fn resize_to_an_unsupported_format_is_an_error() {
    let source = picture(40, 10, image::ImageFormat::Png);
    assert_eq!(
        ImageService::resize_image("/in/a.png", &source, "/out/a.bmp", Some(20), None),
        Err(ImageError::UnsupportedFormat("bmp".to_string()))
    );
    assert_eq!(
        ImageService::resize_image("/in/a.png", &source, "/out/a", None, None),
        Err(ImageError::UnsupportedFormat(String::new()))
    );
}

#[test]
fn resize_of_what_is_no_image_is_a_decode_error() {
    assert!(matches!(
        ImageService::resize_image("/in/a.png", b"junk", "/out/a.gif", Some(20), None),
        Err(ImageError::Decode(_))
    ));
}

#[test]
fn resize_beyond_memory_is_refused() {
    let source = picture(2, 2, image::ImageFormat::Png);
    assert_eq!(
        ImageService::resize_image("/in/a.png", &source, "/out/a.png", Some(u32::MAX), Some(u32::MAX)),
        Err(ImageError::TooLarge)
    );
}

#[test]
fn image_that_cannot_be_encoded_is_an_encode_error() {
    let source = picture(2, 2, image::ImageFormat::Png);
    assert!(matches!(
        ImageService::resize_image("/in/a.png", &source, "/out/a.jpg", Some(70000), Some(1)),
        Err(ImageError::Encode(_))
    ));
}

#[test]
fn clearing_removes_the_regular_files() {
    let entries = vec![
        cache_entry("/cache/a.jpg", true, 10),
        cache_entry("/cache/sub", false, 4096),
        cache_entry("/cache/b.jpg", true, 20),
        cache_entry("/cache/notes.txt", true, 1),
    ];
    assert_eq!(
        ImageService::clear_cache(&entries),
        vec!["/cache/a.jpg".to_string(), "/cache/b.jpg".to_string(), "/cache/notes.txt".to_string()]
    );
}

#[test]
fn clearing_an_empty_cache_removes_nothing() {
    assert_eq!(ImageService::clear_cache(&Vec::new()), Vec::<String>::new());
    assert_eq!(ImageService::clear_cache(&vec![cache_entry("/cache/sub", false, 9)]).len(), 0);
}

#[test]
fn cache_size_sums_the_regular_files() {
    let entries = vec![
        cache_entry("/cache/a.jpg", true, 10),
        cache_entry("/cache/sub", false, 4096),
        cache_entry("/cache/b.jpg", true, 20),
    ];
    assert_eq!(ImageService::get_cache_size(&entries), Some(30));
    assert_eq!(ImageService::get_cache_size(&Vec::new()), Some(0));
}

#[test]
fn cache_size_beyond_64_bits_is_none() {
    let entries = vec![
        cache_entry("/cache/a.jpg", true, u64::MAX),
        cache_entry("/cache/sub", false, 1),
    ];
    assert_eq!(ImageService::get_cache_size(&entries), Some(u64::MAX));
    let entries = vec![
        cache_entry("/cache/a.jpg", true, u64::MAX),
        cache_entry("/cache/b.jpg", true, 1),
        cache_entry("/cache/c.jpg", true, 5),
    ];
    assert_eq!(ImageService::get_cache_size(&entries), None);
}

#[test]
fn thumbnail_of_a_sliver_keeps_an_edge_of_one() {
    let source = picture(1000, 1, image::ImageFormat::Png);
    let thumbnail =
        ImageService::generate_thumbnail("s.png", "/cache/k.jpg", CacheLookup::Miss(&source))
            .unwrap();
    assert_eq!((thumbnail.result.width, thumbnail.result.height), (200, 1));
    let source = picture(1, 1000, image::ImageFormat::Png);
    let thumbnail =
        ImageService::generate_thumbnail("s.png", "/cache/k.jpg", CacheLookup::Miss(&source))
            .unwrap();
    assert_eq!((thumbnail.result.width, thumbnail.result.height), (1, 200));
}

#[test]
fn thumbnail_is_a_jpeg() {
    let source = picture(64, 48, image::ImageFormat::Png);
    let thumbnail =
        ImageService::generate_thumbnail("s.png", "/cache/k.jpg", CacheLookup::Miss(&source))
            .unwrap();
    let rendition = thumbnail.rendition.unwrap();
    assert_eq!(image::guess_format(&rendition).unwrap(), image::ImageFormat::Jpeg);
    assert_eq!(
        ImageService::get_dimensions("/cache/k.jpg", &rendition),
        Ok(ImageDimensions { width: thumbnail.result.width, height: thumbnail.result.height })
    );
}

#[test]
fn resize_to_an_empty_image_is_an_encode_error() {
    let source = picture(8, 4, image::ImageFormat::Png);
    for dest in ["/out/a.png", "/out/a.jpg", "/out/a.webp"] {
        assert!(matches!(
            ImageService::resize_image("/in/a.png", &source, dest, Some(0), Some(5)),
            Err(ImageError::Encode(_))
        ));
        assert!(matches!(
            ImageService::resize_image("/in/a.png", &source, dest, Some(1), None),
            Err(ImageError::Encode(_))
        ));
    }
}

fn encoded(pixels: image::DynamicImage, format: image::ImageFormat) -> Vec<u8> {
    let mut out = std::io::Cursor::new(Vec::new());
    pixels.write_to(&mut out, format).unwrap();
    out.into_inner()
}

#[test]
fn jfif_and_apng_are_read_as_jpeg_and_png() {
    let jpeg = picture(12, 7, image::ImageFormat::Jpeg);
    assert_eq!(
        ImageService::get_dimensions("/photos/a.jfif", &jpeg),
        Ok(ImageDimensions { width: 12, height: 7 })
    );
    assert_eq!(
        ImageService::get_dimensions("/photos/a.JFIF", &jpeg),
        Ok(ImageDimensions { width: 12, height: 7 })
    );
    let png = picture(12, 7, image::ImageFormat::Png);
    assert_eq!(
        ImageService::get_dimensions("/photos/a.apng", &png),
        Ok(ImageDimensions { width: 12, height: 7 })
    );
    let webp = picture(12, 7, image::ImageFormat::WebP);
    assert_eq!(
        ImageService::get_dimensions("/photos/a.WEBP", &webp),
        Ok(ImageDimensions { width: 12, height: 7 })
    );
}

#[test]
fn formats_that_are_not_read_are_a_decode_error() {
    let png = picture(12, 7, image::ImageFormat::Png);
    for path in ["a.gif", "a.bmp", "a.tiff", "a.heic", "a.heif", "a.avif", "a.ico"] {
        assert_eq!(
            ImageService::get_dimensions(path, &png),
            Err(ImageError::Decode(photo_manager::image::UNKNOWN_FORMAT.to_string())),
            "{}",
            path
        );
    }
}

#[test]
fn longer_edge_of_a_thumbnail_is_the_thumbnail_size() {
    for (width, height) in [(201, 200), (200, 201), (1000, 999), (3, 2), (2, 3), (7, 7), (640, 1)] {
        let source = picture(width, height, image::ImageFormat::Png);
        let thumbnail =
            ImageService::generate_thumbnail("s.png", "/cache/k.jpg", CacheLookup::Miss(&source))
                .unwrap();
        let (w, h) = (thumbnail.result.width, thumbnail.result.height);
        assert_eq!(w.max(h), THUMBNAIL_SIZE, "{}x{}", width, height);
        assert!(w >= 1 && h >= 1);
        if width >= height {
            assert_eq!(w, THUMBNAIL_SIZE);
        }
        if height >= width {
            assert_eq!(h, THUMBNAIL_SIZE);
        }
        let rendition = thumbnail.rendition.unwrap();
        assert_eq!(size_of(&rendition, image::ImageFormat::Jpeg), (w, h));
    }
}

#[test]
fn every_kind_of_pixel_has_its_thumbnail() {
    let sources = vec![
        encoded(image::DynamicImage::ImageLuma8(image::GrayImage::new(30, 20)), image::ImageFormat::Png),
        encoded(
            image::DynamicImage::ImageLumaA8(image::GrayAlphaImage::new(30, 20)),
            image::ImageFormat::Png,
        ),
        encoded(image::DynamicImage::ImageRgba8(image::RgbaImage::new(30, 20)), image::ImageFormat::Png),
        encoded(
            image::DynamicImage::ImageRgb16(image::ImageBuffer::new(30, 20)),
            image::ImageFormat::Png,
        ),
        encoded(
            image::DynamicImage::ImageRgba16(image::ImageBuffer::new(30, 20)),
            image::ImageFormat::Png,
        ),
        encoded(
            image::DynamicImage::ImageLuma16(image::ImageBuffer::new(30, 20)),
            image::ImageFormat::Png,
        ),
    ];
    for source in &sources {
        let thumbnail =
            ImageService::generate_thumbnail("s.png", "/cache/k.jpg", CacheLookup::Miss(source))
                .unwrap();
        assert_eq!((thumbnail.result.width, thumbnail.result.height), (200, 133));
        for dest in ["/out/a.jpg", "/out/a.png", "/out/a.webp"] {
            let out = ImageService::resize_image("s.png", source, dest, Some(15), None).unwrap();
            assert_eq!((out.width, out.height), (15, 10));
        }
    }
}

#[test]
fn jpeg_holds_edges_up_to_65535() {
    let source = picture(2, 2, image::ImageFormat::Png);
    let out = ImageService::resize_image("s.png", &source, "a.jpg", Some(65535), Some(1)).unwrap();
    assert_eq!((out.width, out.height), (65535, 1));
    let out = ImageService::resize_image("s.png", &source, "a.jpg", Some(1), Some(65535)).unwrap();
    assert_eq!((out.width, out.height), (1, 65535));
    assert!(matches!(
        ImageService::resize_image("s.png", &source, "a.jpg", Some(65536), Some(1)),
        Err(ImageError::Encode(_))
    ));
    assert!(matches!(
        ImageService::resize_image("s.png", &source, "a.jpg", Some(1), Some(65536)),
        Err(ImageError::Encode(_))
    ));
}

#[test]
fn webp_holds_edges_up_to_16384() {
    let source = picture(2, 2, image::ImageFormat::Png);
    let out = ImageService::resize_image("s.png", &source, "a.webp", Some(16384), Some(1)).unwrap();
    assert_eq!((out.width, out.height), (16384, 1));
    let out = ImageService::resize_image("s.png", &source, "a.webp", Some(1), Some(16384)).unwrap();
    assert_eq!((out.width, out.height), (1, 16384));
    assert!(matches!(
        ImageService::resize_image("s.png", &source, "a.webp", Some(16385), Some(1)),
        Err(ImageError::Encode(_))
    ));
    assert!(matches!(
        ImageService::resize_image("s.png", &source, "a.webp", Some(1), Some(16385)),
        Err(ImageError::Encode(_))
    ));
}

#[test]
fn png_holds_any_edge_but_zero() {
    let source = picture(2, 2, image::ImageFormat::Png);
    let out = ImageService::resize_image("s.png", &source, "a.png", Some(70000), Some(1)).unwrap();
    assert_eq!((out.width, out.height), (70000, 1));
    assert_eq!(size_of(&out.bytes, image::ImageFormat::Png), (70000, 1));
    assert!(matches!(
        ImageService::resize_image("s.png", &source, "a.png", Some(0), Some(1)),
        Err(ImageError::Encode(_))
    ));
}

#[test]
fn shorter_edge_of_a_thumbnail_keeps_the_aspect_ratio() {
    let mut checked = 0;
    for long in [1u64, 2, 3, 7, 199, 200, 201, 333, 400, 401, 1001] {
        for short in [1u64, 2, 3, 5, 50, 99, 100, 101, 199, 200, 333, 400] {
            if short > long {
                continue;
            }
            for wide in [true, false] {
                let (width, height) = if wide { (long, short) } else { (short, long) };
                let source = picture(width as u32, height as u32, image::ImageFormat::Png);
                let thumbnail = ImageService::generate_thumbnail(
                    "s.png",
                    "/cache/k.jpg",
                    CacheLookup::Miss(&source),
                )
                .unwrap();
                let (w, h) = (thumbnail.result.width as u64, thumbnail.result.height as u64);
                let (scaled_long, scaled_short) = if wide { (w, h) } else { (h, w) };
                assert_eq!(scaled_long, 200, "{}x{}", width, height);
                assert!(short * 200 < (scaled_short + 1) * long, "{}x{}", width, height);
                assert!(
                    scaled_short == 1 || (scaled_short - 1) * long < short * 200,
                    "{}x{}",
                    width,
                    height
                );
                checked += 1;
            }
        }
    }
    assert!(checked > 150);
}

#[test]
fn stored_thumbnail_is_served_with_the_size_it_was_rendered_in() {
    for (width, height) in [(400, 100), (100, 400), (201, 200), (7, 3), (1, 1), (640, 480)] {
        let source = picture(width, height, image::ImageFormat::Png);
        let name = ImageService::thumbnail_file_name("/photos/s.png");
        let location = format!("/cache/{}", name);
        let first =
            ImageService::generate_thumbnail("/photos/s.png", &location, CacheLookup::Miss(&source))
                .unwrap();
        let stored = first.rendition.clone().unwrap();
        let second =
            ImageService::generate_thumbnail("/photos/s.png", &location, CacheLookup::Hit(&stored))
                .unwrap();
        assert_eq!(second.result, first.result);
        assert_eq!(second.rendition, None);
    }
}
