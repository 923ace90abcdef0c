use capture_rename::select::{extension_of, is_allowed_extension, is_eligible};
use std::path::Path;

#[test]
fn media_extensions_are_allowed() {
    for extension in ["jpg", "JPG", "CR3", "mp4", "MP4"] {
        assert!(is_allowed_extension(extension), "{}", extension);
    }
}

#[test]
fn other_spellings_are_not() {
    for extension in ["jpeg", "Jpg", "jPG", "cr3", "Cr3", "Mp4", "mP4", "", "jp", "jpgg", " jpg", "png", "CR2"] {
        assert!(!is_allowed_extension(extension), "{}", extension);
    }
}

#[test]
fn jpeg_file_is_ignored() {
    assert_eq!(extension_of("photo.jpeg"), Some("jpeg".to_string()));
    assert!(!is_eligible(true, extension_of("photo.jpeg").as_deref()));
    assert!(!is_eligible(true, Some("jpeg")));
}

#[test]
fn extension_follows_the_last_dot() {
    assert_eq!(extension_of("photo.jpg"), Some("jpg".to_string()));
    assert_eq!(extension_of("archive.tar.gz"), Some("gz".to_string()));
    assert_eq!(extension_of("17104837271230-20240315-1422.CR3"), Some("CR3".to_string()));
    assert_eq!(extension_of("trailing."), Some("".to_string()));
    assert_eq!(extension_of("..jpg"), Some("jpg".to_string()));
    assert_eq!(extension_of(".a.b"), Some("b".to_string()));
}

#[test]
fn names_without_extension() {
    assert_eq!(extension_of(""), None);
    assert_eq!(extension_of("README"), None);
    assert_eq!(extension_of(".hidden"), None);
    assert_eq!(extension_of(".jpg"), None);
    assert_eq!(extension_of("."), None);
    assert_eq!(extension_of(".."), None);
}

#[test]
fn extension_is_what_std_says() {
    let names = [
        "photo.jpeg", "photo.JPG", "a.b.c", ".hidden", ".hidden.mp4", "noext", "a.", "...", "..a",
        "é.CR3", "x.é", "a..b", ".a.", "clip.MP4",
    ];
    for name in names {
        let expected = Path::new(name).extension().map(|e| e.to_string_lossy().into_owned());
        assert_eq!(extension_of(name), expected, "{}", name);
    }
}

#[test]
fn media_files_by_name() {
    let eligible = ["a.jpg", "b.JPG", "c.CR3", "d.mp4", "e.MP4", "x.y.CR3"];
    for name in eligible {
        assert!(is_eligible(true, extension_of(name).as_deref()), "{}", name);
    }
    let ignored = ["photo.jpeg", "a.Jpg", "a.cr3", "jpg", ".jpg", "a.jpg.bak", "a.png", "CR3"];
    for name in ignored {
        assert!(!is_eligible(true, extension_of(name).as_deref()), "{}", name);
    }
}

#[test]
fn regular_media_files_are_eligible() {
    assert!(is_eligible(true, Some("jpg")));
    assert!(is_eligible(true, Some("CR3")));
    assert!(is_eligible(true, Some("MP4")));
}

#[test]
fn directories_are_not_eligible() {
    assert!(!is_eligible(false, Some("jpg")));
    assert!(!is_eligible(false, Some("CR3")));
    assert!(!is_eligible(false, None));
}

#[test]
fn files_without_extension_are_not_eligible() {
    assert!(!is_eligible(true, None));
    assert!(!is_eligible(true, Some("")));
}

#[test]
fn derived_names_stay_eligible() {
    let name = capture_rename::filename::derive_file_name("2024:03:15 14:22:07", "123").unwrap();
    assert!(is_eligible(true, extension_of(&name).as_deref()));
}
