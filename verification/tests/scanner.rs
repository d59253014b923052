use photo_manager::fs::{
    FileProbe, FileSystemService, ImageFile, RootKind, ScanError, ScanProgress, WalkEntry,
};
use photo_manager::path::{chars_of, extension_bounds, file_name_bounds, file_name_of};

fn entry(path: &str, is_file: bool, size: Option<u64>) -> WalkEntry {
    WalkEntry { path: path.to_string(), is_file, size }
}

fn extension_text(path: &str) -> Option<String> {
    let chars = chars_of(path);
    extension_bounds(&chars).map(|(from, to)| chars[from..to].iter().collect())
}

#[test]
fn recognises_supported_extensions() {
    assert!(FileSystemService::is_image_file("holiday/beach.jpg"));
    assert!(FileSystemService::is_image_file("a.jpeg"));
    assert!(FileSystemService::is_image_file("a.png"));
    assert!(FileSystemService::is_image_file("a.webp"));
    assert!(FileSystemService::is_image_file("a.heic"));
    assert!(FileSystemService::is_image_file("a.heif"));
}

#[test]
fn extension_match_ignores_letter_case() {
    assert!(FileSystemService::is_image_file("holiday/beach.JPG"));
    assert!(FileSystemService::is_image_file("a.JpEg"));
    assert!(FileSystemService::is_image_file("a.PNG"));
    assert!(FileSystemService::is_image_file("a.WebP"));
    assert!(FileSystemService::is_image_file("a.HEIC"));
    assert!(FileSystemService::is_image_file("a.Heif"));
}

#[test]
fn rejects_other_extensions() {
    assert!(!FileSystemService::is_image_file("a.gif"));
    assert!(!FileSystemService::is_image_file("a.bmp"));
    assert!(!FileSystemService::is_image_file("a.jpg.txt"));
    assert!(!FileSystemService::is_image_file("a.jpgx"));
    assert!(!FileSystemService::is_image_file("a.jp"));
    assert!(!FileSystemService::is_image_file("a."));
    assert!(!FileSystemService::is_image_file("notes"));
    assert!(!FileSystemService::is_image_file(""));
}

#[test]
fn extension_belongs_to_the_final_component() {
    assert!(!FileSystemService::is_image_file("album.jpg/readme"));
    assert!(!FileSystemService::is_image_file("jpg"));
    assert!(!FileSystemService::is_image_file(".jpg"));
    assert!(!FileSystemService::is_image_file("dir/.png"));
    assert!(FileSystemService::is_image_file("dir/.hidden.png"));
    assert!(FileSystemService::is_image_file("a/b.jpg/"));
    assert!(FileSystemService::is_image_file("a/b.jpg/."));
    assert!(FileSystemService::is_image_file("a//b.jpg//"));
    assert!(!FileSystemService::is_image_file("a/b.jpg/.."));
    assert!(!FileSystemService::is_image_file("/"));
    assert!(!FileSystemService::is_image_file("."));
    assert!(!FileSystemService::is_image_file(".."));
}

#[test]
fn non_ascii_letters_are_not_folded() {
    // U+212A, the Kelvin sign, is no ASCII letter and stays what it is.
    assert!(!FileSystemService::is_image_file("a.\u{212a}pg"));
    assert!(FileSystemService::is_image_file("caf\u{e9}/\u{e9}t\u{e9}.jpg"));
}

#[test]
fn extension_is_what_follows_the_last_dot() {
    assert_eq!(extension_text("a/b.tar.gz"), Some("gz".to_string()));
    assert_eq!(extension_text("a/b."), Some(String::new()));
    assert_eq!(extension_text("a/..b"), Some("b".to_string()));
    assert_eq!(extension_text("a/.b"), None);
    assert_eq!(extension_text("a.b/c"), None);
    assert_eq!(extension_text("a/b.JPG/"), Some("JPG".to_string()));
    assert_eq!(extension_text(""), None);
}

#[test]
fn extension_agrees_with_std_paths() {
    let samples = [
        "a.jpg", "a/b.jpg", "a/b.jpg/", "a/b.jpg/.", "a/b.jpg/..", "a/./b.png", "./a.png", ".",
        "..", "/", "", "a", "a.", ".a", "..a", "a..b", "a/.b.c", "//a//b.c//", "a/b/.", "a/..",
        "x.y/z", "x.y/.z", "/.", "./", "./.", "a/../b.webp",
    ];
    for sample in samples {
        let expected = std::path::Path::new(sample)
            .extension()
            .map(|e| e.to_string_lossy().to_string());
        assert_eq!(extension_text(sample), expected, "extension of {:?}", sample);
        let name = std::path::Path::new(sample)
            .file_name()
            .unwrap_or_default()
            .to_string_lossy()
            .to_string();
        assert_eq!(file_name_of(sample), name, "file name of {:?}", sample);
    }
}

#[test]
fn file_name_is_the_final_component() {
    assert_eq!(file_name_of("/photos/2024/beach.jpg"), "beach.jpg");
    assert_eq!(file_name_of("beach.jpg"), "beach.jpg");
    assert_eq!(file_name_of("/photos/2024/"), "2024");
    assert_eq!(file_name_of("/photos/2024/."), "2024");
    assert_eq!(file_name_of("/photos/.."), "");
    assert_eq!(file_name_of("/"), "");
    assert_eq!(file_name_of(""), "");
    let chars = chars_of("ab/cd");
    assert_eq!(file_name_bounds(&chars), Some((3, 5)));
}

#[test]
fn scan_of_a_missing_root_is_not_found() {
    let entries = vec![entry("/gone/a.jpg", true, Some(1))];
    assert_eq!(
        FileSystemService::scan_images(RootKind::Missing, &entries),
        Err(ScanError::NotFound)
    );
}

#[test]
fn scan_of_a_file_root_is_not_a_directory() {
    let entries = vec![entry("/file/a.jpg", true, Some(1))];
    assert_eq!(
        FileSystemService::scan_images(RootKind::NotADirectory, &entries),
        Err(ScanError::NotADirectory)
    );
}

#[test]
fn scan_of_an_empty_directory_is_empty() {
    assert_eq!(FileSystemService::scan_images(RootKind::Directory, &Vec::new()), Ok(Vec::new()));
}

#[test]
fn scan_reports_image_files_in_walk_order() {
    let entries = vec![
        entry("/p", false, Some(4096)),
        entry("/p/z.png", true, Some(30)),
        entry("/p/notes.txt", true, Some(5)),
        entry("/p/sub", false, Some(4096)),
        entry("/p/sub/a.JPG", true, Some(10)),
        entry("/p/sub/b.heic", true, Some(0)),
    ];
    let images = FileSystemService::scan_images(RootKind::Directory, &entries).unwrap();
    assert_eq!(
        images,
        vec![
            ImageFile { path: "/p/z.png".to_string(), filename: "z.png".to_string(), file_size: 30 },
            ImageFile {
                path: "/p/sub/a.JPG".to_string(),
                filename: "a.JPG".to_string(),
                file_size: 10
            },
            ImageFile {
                path: "/p/sub/b.heic".to_string(),
                filename: "b.heic".to_string(),
                file_size: 0
            },
        ]
    );
}

#[test]
fn scan_never_reports_what_is_no_regular_file() {
    let entries = vec![
        entry("/p/album.jpg", false, Some(4096)),
        entry("/p/album.jpg/inner.png", true, Some(7)),
        entry("/p/socket.webp", false, None),
    ];
    let images = FileSystemService::scan_images(RootKind::Directory, &entries).unwrap();
    assert_eq!(images.len(), 1);
    assert_eq!(images[0].path, "/p/album.jpg/inner.png");
    for image in &images {
        assert!(FileSystemService::is_image_file(&image.path));
        assert!(entries.iter().any(|e| e.is_file && e.path == image.path));
    }
}

#[test]
fn scan_skips_a_file_whose_metadata_cannot_be_read() {
    let entries = vec![
        entry("/p/a.jpg", true, Some(1)),
        entry("/p/b.jpg", true, None),
        entry("/p/c.jpg", true, Some(3)),
    ];
    let images = FileSystemService::scan_images(RootKind::Directory, &entries).unwrap();
    let paths: Vec<&str> = images.iter().map(|i| i.path.as_str()).collect();
    assert_eq!(paths, vec!["/p/a.jpg", "/p/c.jpg"]);
}

#[test]
fn scan_does_not_merge_equal_files() {
    let entries = vec![entry("/p/a.jpg", true, Some(1)), entry("/p/a.jpg", true, Some(1))];
    let images = FileSystemService::scan_images(RootKind::Directory, &entries).unwrap();
    assert_eq!(images.len(), 2);
}

#[test]
fn file_info_of_a_present_file() {
    assert_eq!(
        FileSystemService::get_file_info("/p/sub/a.jpg", FileProbe::Size(1234)),
        Ok(ImageFile {
            path: "/p/sub/a.jpg".to_string(),
            filename: "a.jpg".to_string(),
            file_size: 1234
        })
    );
}

#[test]
fn file_info_of_a_missing_file_is_not_found() {
    assert_eq!(
        FileSystemService::get_file_info("/p/gone.jpg", FileProbe::Missing),
        Err(ScanError::NotFound)
    );
}

#[test]
fn file_info_of_an_unreadable_file_is_an_io_error() {
    assert_eq!(
        FileSystemService::get_file_info("/p/locked.jpg", FileProbe::Unreadable),
        Err(ScanError::Io)
    );
}

#[test]
fn scan_progress_holds_its_fields() {
    let progress = ScanProgress { current: 2, total: 9, current_file: "a.jpg".to_string() };
    assert_eq!(progress.clone(), progress);
    assert_eq!(progress.total, 9);
}
