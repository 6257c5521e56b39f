use imgpress::file_collector::{
    collect_input_files, is_image_entry, is_supported_extension, prepare_output_dir,
    DiscoveryError, InputProbe, WalkEntry,
};

fn file(path: &str) -> WalkEntry {
    WalkEntry { path: path.to_string(), is_file: true }
}

fn dir(path: &str) -> WalkEntry {
    WalkEntry { path: path.to_string(), is_file: false }
}

#[test]
fn the_seven_extensions_are_supported() {
    for ext in ["jpg", "jpeg", "png", "webp", "tif", "tiff", "bmp"] {
        assert!(is_supported_extension(ext), "{}", ext);
    }
}

#[test]
fn extension_case_is_ignored() {
    for ext in ["JPG", "Jpeg", "PNG", "pNg", "WEBP", "Tif", "TIFF", "BMP", "bMp"] {
        assert!(is_supported_extension(ext), "{}", ext);
    }
}

#[test]
fn other_extensions_are_not_supported() {
    let others = ["", "gif", "txt", "jp", "jpgg", "jpe", "pn", "png ", ".png", "tifff", "svg"];
    for ext in others {
        assert!(!is_supported_extension(ext), "{}", ext);
    }
}

#[test]
fn letters_outside_ascii_are_not_folded() {
    // U+FF4A is a full-width "j"; U+212A lower-cases to "k" in Unicode.
    assert!(!is_supported_extension("\u{ff4a}pg"));
    assert!(!is_supported_extension("\u{212a}pg"));
    assert!(!is_supported_extension("jp\u{e9}g"));
}

#[test]
fn image_entry_is_a_file_with_supported_extension() {
    assert!(is_image_entry(&file("a/b/photo.png")));
    assert!(is_image_entry(&file("a/b/photo.JPG")));
    assert!(is_image_entry(&file("photo.final.tiff")));
    assert!(!is_image_entry(&file("a/b/notes.txt")));
    assert!(!is_image_entry(&file("a/b/png")));
    assert!(!is_image_entry(&file("a/b/.png")));
    assert!(!is_image_entry(&file("a.png/readme")));
    assert!(!is_image_entry(&dir("a/b/album.png")));
}

#[test]
fn input_file_is_taken_whatever_its_extension() {
    assert_eq!(
        collect_input_files("notes.txt", &InputProbe::File),
        Ok(vec!["notes.txt".to_string()])
    );
    assert_eq!(
        collect_input_files("dir/photo.png", &InputProbe::File),
        Ok(vec!["dir/photo.png".to_string()])
    );
}

#[test]
fn missing_input_is_not_found() {
    assert_eq!(collect_input_files("nowhere", &InputProbe::Missing), Err(DiscoveryError::NotFound));
}

#[test]
fn directory_walk_keeps_images_in_walk_order() {
    let probe = InputProbe::Directory(vec![
        dir("in"),
        file("in/b.png"),
        file("in/readme.md"),
        dir("in/sub"),
        file("in/sub/a.JPEG"),
        dir("in/sub/trap.jpg"),
        file("in/sub/c.webp"),
        file("in/sub/noext"),
        file("in/z.bmp"),
        file("in/movie.mp4"),
        file("in/t.tif"),
        file("in/u.TIFF"),
        file("in/v.jpg"),
    ]);
    assert_eq!(
        collect_input_files("in", &probe),
        Ok(vec![
            "in/b.png".to_string(),
            "in/sub/a.JPEG".to_string(),
            "in/sub/c.webp".to_string(),
            "in/z.bmp".to_string(),
            "in/t.tif".to_string(),
            "in/u.TIFF".to_string(),
            "in/v.jpg".to_string(),
        ])
    );
}

#[test]
fn directory_without_images_has_no_input() {
    let probe = InputProbe::Directory(vec![dir("in"), file("in/readme.md"), dir("in/a.png")]);
    assert_eq!(collect_input_files("in", &probe), Err(DiscoveryError::NoImages));
    assert_eq!(
        collect_input_files("in", &InputProbe::Directory(Vec::new())),
        Err(DiscoveryError::NoImages)
    );
}

#[test]
fn discovery_is_repeatable() {
    let entries = || vec![file("in/a.png"), file("in/b.txt"), file("in/c.jpg")];
    let first = collect_input_files("in", &InputProbe::Directory(entries()));
    let second = collect_input_files("in", &InputProbe::Directory(entries()));
    assert_eq!(first, second);
}

#[test]
fn existing_output_file_needs_its_parent() {
    assert_eq!(
        prepare_output_dir("out/dir/result.jpg", true, true, '/'),
        Some("out/dir".to_string())
    );
    assert_eq!(prepare_output_dir("result.jpg", true, true, '/'), Some("".to_string()));
    assert_eq!(prepare_output_dir("/", true, true, '/'), None);
}

#[test]
fn existing_output_directory_needs_nothing() {
    assert_eq!(prepare_output_dir("out/dir", true, false, '/'), None);
    assert_eq!(prepare_output_dir("out/dir.d", true, false, '/'), None);
}

#[test]
fn new_output_without_extension_is_a_directory() {
    assert_eq!(prepare_output_dir("out/small", false, false, '/'), Some("out/small".to_string()));
    assert_eq!(prepare_output_dir("small", false, false, '/'), Some("small".to_string()));
}

#[test]
fn new_output_ending_in_separator_is_a_directory() {
    assert_eq!(prepare_output_dir("out/v1.2/", false, false, '/'), Some("out/v1.2/".to_string()));
    assert_eq!(
        prepare_output_dir("out\\v1.2\\", false, false, '\\'),
        Some("out\\v1.2\\".to_string())
    );
}

#[test]
fn new_output_with_extension_is_a_file() {
    assert_eq!(
        prepare_output_dir("out/dir/result.jpg", false, false, '/'),
        Some("out/dir".to_string())
    );
    assert_eq!(prepare_output_dir("result.jpg", false, false, '/'), Some("".to_string()));
    // Whether the probe calls it a file plays no part while it does not exist.
    assert_eq!(
        prepare_output_dir("out/dir/result.jpg", false, true, '/'),
        Some("out/dir".to_string())
    );
}
