use caption_meta::{accepts, filter_candidates, is_supported_extension, FileEntry};

fn entry(path: &str, ext: Option<&str>, is_file: bool, caption_exists: bool) -> FileEntry {
    FileEntry {
        path: path.to_string(),
        extension: ext.map(|e| e.to_string()),
        is_file,
        caption_exists,
    }
}

#[test]
fn every_supported_extension_with_caption_is_accepted() {
    for ext in ["jpg", "jpeg", "png", "webp"] {
        let path = format!("/data/img.{}", ext);
        assert!(is_supported_extension(ext));
        assert!(accepts(&entry(&path, Some(ext), true, true)));
    }
}

#[test]
fn unsupported_extension_is_rejected_even_with_caption() {
    for ext in ["gif", "bmp", "txt", "tiff", ""] {
        assert!(!is_supported_extension(ext));
        assert!(!accepts(&entry("/data/img.x", Some(ext), true, true)));
    }
}

#[test]
fn extension_match_is_case_sensitive() {
    assert!(!is_supported_extension("JPG"));
    assert!(!is_supported_extension("Png"));
    assert!(!accepts(&entry("/data/IMG.JPG", Some("JPG"), true, true)));
}

#[test]
fn missing_extension_is_rejected() {
    assert!(!accepts(&entry("/data/README", None, true, true)));
}

#[test]
fn missing_caption_is_rejected() {
    assert!(!accepts(&entry("/data/a.png", Some("png"), true, false)));
}

#[test]
fn directory_entry_is_rejected() {
    assert!(!accepts(&entry("/data/sub.png", Some("png"), false, true)));
}

#[test]
fn filter_keeps_exactly_the_captioned_images() {
    let entries = vec![
        entry("/d/a.jpg", Some("jpg"), true, true),
        entry("/d/b.png", Some("png"), true, false),
        entry("/d/c.webp", Some("webp"), true, true),
        entry("/d/c.txt", Some("txt"), true, true),
        entry("/d/d.jpeg", Some("jpeg"), true, false),
        entry("/d/e.jpeg", Some("jpeg"), true, true),
        entry("/d/sub", None, false, false),
    ];
    let out = filter_candidates(&entries);
    assert_eq!(out, vec!["/d/a.jpg".to_string(), "/d/c.webp".to_string(), "/d/e.jpeg".to_string()]);
}

#[test]
fn filter_of_empty_directory_is_empty() {
    let out = filter_candidates(&Vec::new());
    assert!(out.is_empty());
}

#[test]
fn filter_without_captions_is_empty() {
    let entries = vec![
        entry("/d/a.jpg", Some("jpg"), true, false),
        entry("/d/b.png", Some("png"), true, false),
    ];
    assert!(filter_candidates(&entries).is_empty());
}
