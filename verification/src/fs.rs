//! The scanner: which entries of a directory walk are images of a supported
//! kind, and what is reported of each.

use crate::path::{
    ascii_lowercase, chars_of, extension, extension_bounds, file_name, file_name_of,
    lowercase_range, spells,
};
use vstd::prelude::*;

verus! {

/// An image file found by a scan.
#[derive(Debug, Clone, PartialEq, Eq)]
pub struct ImageFile {
    pub path: String,
    pub filename: String,
    pub file_size: u64,
}

/// What an `ImageFile` says, as mathematical values.
pub struct ImageFileView {
    pub path: Seq<char>,
    pub filename: Seq<char>,
    pub file_size: u64,
}

impl View for ImageFile {
    type V = ImageFileView;

    open spec fn view(&self) -> ImageFileView {
        ImageFileView { path: self.path@, filename: self.filename@, file_size: self.file_size }
    }
}

/// How far a scan has come.
#[derive(Debug, Clone, PartialEq, Eq)]
pub struct ScanProgress {
    pub current: usize,
    pub total: usize,
    pub current_file: String,
}

/// What the caller found at the root it was asked to scan.
#[derive(Debug, Clone, Copy, PartialEq, Eq)]
pub enum RootKind {
    /// Nothing exists at the path.
    Missing,
    /// Something exists there that is no directory.
    NotADirectory,
    /// A directory.
    Directory,
}

/// One entry met while walking a directory tree, symbolic links followed.
#[derive(Debug, Clone, PartialEq, Eq)]
pub struct WalkEntry {
    pub path: String,
    /// Whether the entry is a regular file.
    pub is_file: bool,
    /// The size in bytes, or `None` where the entry's metadata could not be read.
    pub size: Option<u64>,
}

/// What the caller found at a single path.
#[derive(Debug, Clone, Copy, PartialEq, Eq)]
pub enum FileProbe {
    /// Nothing exists at the path.
    Missing,
    /// The path exists but its metadata could not be read.
    Unreadable,
    /// The path exists and has this many bytes.
    Size(u64),
}

/// Why a scan or a lookup gave no result.
#[derive(Debug, Clone, Copy, PartialEq, Eq)]
pub enum ScanError {
    /// The path does not exist.
    NotFound,
    /// The root of a scan is not a directory.
    NotADirectory,
    /// The metadata of the file could not be read.
    Io,
}

/// Whether an extension names a supported image kind, letter case aside:
/// jpg, jpeg, png, webp, heic or heif.
pub open spec fn is_supported_extension(ext: Seq<char>) -> bool {
    let lower = ascii_lowercase(ext);
    lower == "jpg"@ || lower == "jpeg"@ || lower == "png"@ || lower == "webp"@ || lower == "heic"@
        || lower == "heif"@
}

/// Whether a path names an image: its extension is a supported one.
pub open spec fn is_image_path(path: Seq<char>) -> bool {
    match extension(path) {
        Some(ext) => is_supported_extension(ext),
        None => false,
    }
}

/// Whether a scan reports an entry: a regular file with a supported
/// extension whose size could be read.
pub open spec fn is_reported(entry: WalkEntry) -> bool {
    entry.is_file && is_image_path(entry.path@) && entry.size is Some
}

/// What a scan reports of an entry.
pub open spec fn report_of(entry: WalkEntry) -> ImageFileView {
    ImageFileView {
        path: entry.path@,
        filename: file_name(entry.path@),
        file_size: entry.size.unwrap(),
    }
}

/// The reports of a walk: one for each reported entry, in the walk's order.
pub open spec fn reports_of(entries: Seq<WalkEntry>) -> Seq<ImageFileView>
    decreases entries.len(),
{
    if entries.len() == 0 {
        Seq::empty()
    } else if is_reported(entries.last()) {
        reports_of(entries.drop_last()).push(report_of(entries.last()))
    } else {
        reports_of(entries.drop_last())
    }
}

/// The views of a list of image files.
pub open spec fn views_of(files: Seq<ImageFile>) -> Seq<ImageFileView> {
    files.map_values(|f: ImageFile| f@)
}

/// Whether a report is that of some reported entry of the walk.
pub open spec fn stems_from(entries: Seq<WalkEntry>, report: ImageFileView) -> bool {
    exists|j: int|
        0 <= j < entries.len() && is_reported(#[trigger] entries[j]) && report_of(entries[j])
            == report
}

/// Every report of a walk is that of a regular file of the walk with a
/// supported extension.
pub proof fn lemma_reports_are_image_files(entries: Seq<WalkEntry>)
    ensures
        reports_of(entries).len() <= entries.len(),
        forall|i: int|
            0 <= i < reports_of(entries).len() ==> stems_from(
                entries,
                #[trigger] reports_of(entries)[i],
            ),
    decreases entries.len(),
{
    if entries.len() > 0 {
        let shorter = entries.drop_last();
        lemma_reports_are_image_files(shorter);
        assert forall|i: int| 0 <= i < reports_of(entries).len() implies stems_from(
            entries,
            #[trigger] reports_of(entries)[i],
        ) by {
            if i < reports_of(shorter).len() {
                let report = reports_of(shorter)[i];
                assert(reports_of(entries)[i] == report);
                assert(stems_from(shorter, report));
                let j = choose|j: int|
                    0 <= j < shorter.len() && is_reported(#[trigger] shorter[j]) && report_of(
                        shorter[j],
                    ) == report;
                assert(entries[j] == shorter[j]);
            } else {
                assert(is_reported(entries[entries.len() - 1]));
            }
        }
    }
}

/// Whether the walk met a regular file at this path.
pub open spec fn is_regular_file_of(entries: Seq<WalkEntry>, path: Seq<char>) -> bool {
    exists|j: int|
        0 <= j < entries.len() && (#[trigger] entries[j]).is_file && entries[j].path@ == path
}

/// The scanner.
pub struct FileSystemService;

impl FileSystemService {
    /// Whether the path has the extension of a supported image kind.
    pub fn is_image_file(path: &str) -> (r: bool)
        ensures
            r == is_image_path(path@),
    {
        let chars = chars_of(path);
        match extension_bounds(&chars) {
            None => false,
            Some((from, to)) => {
                let lower = lowercase_range(&chars, from, to);
                spells(&lower, "jpg") || spells(&lower, "jpeg") || spells(&lower, "png") || spells(
                    &lower,
                    "webp",
                ) || spells(&lower, "heic") || spells(&lower, "heif")
            },
        }
    }

    /// The image files of a directory walk. A root that does not exist or is
    /// no directory is an error. Otherwise every regular file with a supported
    /// extension is reported, in the order of the walk; an entry whose
    /// metadata could not be read is passed over.
    pub fn scan_images(root: RootKind, entries: &Vec<WalkEntry>) -> (r: Result<
        Vec<ImageFile>,
        ScanError,
    >)
        ensures
            root == RootKind::Missing ==> r == Err::<Vec<ImageFile>, ScanError>(
                ScanError::NotFound,
            ),
            root == RootKind::NotADirectory ==> r == Err::<Vec<ImageFile>, ScanError>(
                ScanError::NotADirectory,
            ),
            root == RootKind::Directory ==> r is Ok && views_of(r.unwrap()@) == reports_of(
                entries@,
            ),
            r matches Ok(images) ==> forall|i: int|
                0 <= i < images.len() ==> is_image_path((#[trigger] images[i]).path@)
                    && is_regular_file_of(entries@, images[i].path@),
    {
        match root {
            RootKind::Missing => Err(ScanError::NotFound),
            RootKind::NotADirectory => Err(ScanError::NotADirectory),
            RootKind::Directory => {
                let mut images: Vec<ImageFile> = Vec::new();
                let mut i: usize = 0;
                while i < entries.len()
                    invariant
                        i <= entries.len(),
                        views_of(images@) == reports_of(entries@.take(i as int)),
                    decreases entries.len() - i,
                {
                    let entry = &entries[i];
                    proof {
                        assert(entries@.take(i + 1).drop_last() =~= entries@.take(i as int));
                        assert(entries@.take(i + 1).last() == entries@[i as int]);
                    }
                    if entry.is_file && Self::is_image_file(entry.path.as_str()) {
                        if let Some(size) = entry.size {
                            let file = ImageFile {
                                path: entry.path.clone(),
                                filename: file_name_of(entry.path.as_str()),
                                file_size: size,
                            };
                            images.push(file);
                            assert(views_of(images@) =~= reports_of(entries@.take(i + 1)));
                        }
                    }
                    i = i + 1;
                }
                proof {
                    assert(entries@.take(entries.len() as int) =~= entries@);
                    lemma_reports_are_image_files(entries@);
                    assert forall|k: int| 0 <= k < images.len() implies is_image_path(
                        (#[trigger] images[k]).path@,
                    ) && is_regular_file_of(entries@, images[k].path@) by {
                        let report = reports_of(entries@)[k];
                        assert(views_of(images@)[k] == images[k]@);
                        assert(stems_from(entries@, report));
                        let j = choose|j: int|
                            0 <= j < entries@.len() && is_reported(#[trigger] entries@[j])
                                && report_of(entries@[j]) == report;
                        assert(entries[j].is_file && entries[j].path@ == images[k].path@);
                    }
                }
                Ok(images)
            },
        }
    }

    /// What is reported of a single path: its name and size. A path that does
    /// not exist, or whose metadata cannot be read, is an error.
    pub fn get_file_info(path: &str, probe: FileProbe) -> (r: Result<ImageFile, ScanError>)
        ensures
            probe == FileProbe::Missing ==> r == Err::<ImageFile, ScanError>(ScanError::NotFound),
            probe == FileProbe::Unreadable ==> r == Err::<ImageFile, ScanError>(ScanError::Io),
            probe matches FileProbe::Size(size) ==> r is Ok && r.unwrap()@ == (ImageFileView {
                path: path@,
                filename: file_name(path@),
                file_size: size,
            }),
    {
        match probe {
            FileProbe::Missing => Err(ScanError::NotFound),
            FileProbe::Unreadable => Err(ScanError::Io),
            FileProbe::Size(size) => Ok(
                ImageFile { path: path.to_owned(), filename: file_name_of(path), file_size: size },
            ),
        }
    }
}

} // verus!
