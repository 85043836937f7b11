use fmlm::scanner::{
    build_media_file, collect_media_files, determine_media_type, extension_of, extract_file_name,
    scan_collect, sort_media_files, MediaFile, MediaType, ScanEntry,
};

#[test]
fn test_determine_media_type_image() {
    assert_eq!(determine_media_type("jpg"), MediaType::Image);
    assert_eq!(determine_media_type("png"), MediaType::Image);
    assert_eq!(determine_media_type("gif"), MediaType::Image);
    assert_eq!(determine_media_type("webp"), MediaType::Image);
}

#[test]
fn test_determine_media_type_video() {
    assert_eq!(determine_media_type("mp4"), MediaType::Video);
    assert_eq!(determine_media_type("mov"), MediaType::Video);
    assert_eq!(determine_media_type("avi"), MediaType::Video);
    assert_eq!(determine_media_type("mkv"), MediaType::Video);
}

#[test]
fn test_determine_media_type_unknown() {
    assert_eq!(determine_media_type("txt"), MediaType::Unknown);
    assert_eq!(determine_media_type("pdf"), MediaType::Unknown);
    assert_eq!(determine_media_type(""), MediaType::Unknown);
}

#[test]
fn test_media_type_default() {
    assert_eq!(MediaType::default(), MediaType::Unknown);
}

#[test]
fn test_media_file_equality() {
    let file1 = MediaFile {
        path: "/test/file.jpg".to_string(),
        name: "file.jpg".to_string(),
        size: 1024,
        modified: 1234567890,
        file_type: "jpg".to_string(),
        media_type: MediaType::Image,
    };

    let file2 = file1.clone();
    assert_eq!(file1, file2);
}

#[test]
fn test_extract_file_name() {
    assert_eq!(extract_file_name("/a/b/photo.jpg"), "photo.jpg");
    assert_eq!(extract_file_name("photo.jpg"), "photo.jpg");
    assert_eq!(extract_file_name("/a/b/"), "Unknown");
    assert_eq!(extract_file_name(""), "Unknown");
}

#[test]
fn test_extension_of() {
    assert_eq!(extension_of("/a/b/photo.JPG"), "jpg");
    assert_eq!(extension_of("/a/b/archive.tar.gz"), "gz");
    assert_eq!(extension_of("/a/b/noext"), "");
    assert_eq!(extension_of("/a/b/.hidden"), "");
    assert_eq!(extension_of("/a.b/noext"), "");
    assert_eq!(extension_of("/a/b/trailing."), "");
}

fn entry(path: &str, is_dir: bool, size: u64, modified: i64) -> ScanEntry {
    ScanEntry { path: path.to_string(), is_dir, size, modified }
}

#[test]
fn test_build_media_file_filters_unsupported() {
    assert!(build_media_file(&entry("/p/readme.txt", false, 10, 5)).is_none());
    assert!(build_media_file(&entry("/p/photos", true, 0, 5)).is_none());
    let m = build_media_file(&entry("/p/clip.MP4", false, 99, 7)).unwrap();
    assert_eq!(m.media_type, MediaType::Video);
    assert_eq!(m.file_type, "mp4");
    assert_eq!(m.name, "clip.MP4");
    assert_eq!(m.size, 99);
    assert_eq!(m.modified, 7);
}

#[test]
fn test_scan_collect_filters_and_sorts() {
    let entries = vec![
        entry("/p/old.jpg", false, 1, 100),
        entry("/p/notes.txt", false, 2, 900),
        entry("/p/dir.mp4", true, 0, 950),
        entry("/p/new.mp4", false, 3, 300),
        entry("/p/mid.png", false, 4, 200),
    ];
    let files = scan_collect(&entries);
    assert_eq!(files.len(), 3);
    // newest first
    assert_eq!(files[0].name, "new.mp4");
    assert_eq!(files[1].name, "mid.png");
    assert_eq!(files[2].name, "old.jpg");
    // no unsupported entry survives
    assert!(files.iter().all(|f| f.media_type != MediaType::Unknown));
}

#[test]
fn test_scan_collect_covers_each_entry_exactly_once() {
    // two identical supported entries each contribute one record;
    // nothing is matched twice at another entry's expense
    let entries = vec![
        entry("/p/twin.jpg", false, 7, 40),
        entry("/p/twin.jpg", false, 7, 40),
        entry("/p/single.mp4", false, 8, 50),
    ];
    let files = scan_collect(&entries);
    assert_eq!(files.len(), 3);
    assert_eq!(files.iter().filter(|f| f.name == "twin.jpg").count(), 2);
    assert_eq!(files.iter().filter(|f| f.name == "single.mp4").count(), 1);
}

#[test]
fn test_collect_then_sort_matches_scan_collect() {
    let entries = vec![
        entry("/p/a.jpg", false, 1, 5),
        entry("/p/b.mkv", false, 2, 9),
    ];
    let mut built = collect_media_files(&entries);
    sort_media_files(&mut built);
    let scanned = scan_collect(&entries);
    assert_eq!(built, scanned);
}
