use photo_cull::extension::{is_supported_extension, is_supported_image};

const SUPPORTED: [&str; 7] = ["jpg", "jpeg", "png", "webp", "tif", "tiff", "bmp"];

fn spelling(word: &str, upper: u32) -> String {
    let mut out = String::new();
    let mut i = 0;
    for c in word.chars() {
        if upper >> i & 1 == 1 {
            out.push(c.to_ascii_uppercase());
        } else {
            out.push(c);
        }
        i += 1;
    }
    out
}

#[test]
fn the_listed_extensions_are_supported() {
    for ext in SUPPORTED {
        assert!(is_supported_extension(ext), "{}", ext);
    }
}

#[test]
fn upper_case_extensions_are_supported() {
    assert!(is_supported_extension("JPG"));
    assert!(is_supported_extension("JPEG"));
    assert!(is_supported_extension("PNG"));
    assert!(is_supported_extension("WEBP"));
    assert!(is_supported_extension("TIF"));
    assert!(is_supported_extension("TIFF"));
    assert!(is_supported_extension("BMP"));
}

#[test]
fn every_mix_of_case_is_supported() {
    for ext in SUPPORTED {
        let mut upper: u32 = 0;
        while upper < 1 << ext.len() {
            let mixed = spelling(ext, upper);
            assert!(is_supported_extension(&mixed), "{}", mixed);
            assert_eq!(mixed.to_lowercase(), ext);
            upper += 1;
        }
    }
}

#[test]
fn other_extensions_are_not_supported() {
    for ext in ["gif", "heic", "raw", "svg", "txt", "jp", "jpgg", "pn", "jpe", "tifff", "mp4"] {
        assert!(!is_supported_extension(ext), "{}", ext);
    }
}

#[test]
fn the_empty_extension_is_not_supported() {
    assert!(!is_supported_extension(""));
}

#[test]
fn an_extension_is_matched_whole() {
    assert!(!is_supported_extension(" jpg"));
    assert!(!is_supported_extension("jpg "));
    assert!(!is_supported_extension(".jpg"));
    assert!(!is_supported_extension("jpg.png"));
}

#[test]
fn only_the_letters_a_to_z_change_case() {
    // One step before `a` and one step after `Z` in the code table.
    assert!(!is_supported_extension("@mp"));
    assert!(!is_supported_extension("[mp"));
    assert!(!is_supported_extension("jp\u{47}\u{301}"));
    // The Kelvin sign and the dotted capital I are letters outside A to Z.
    assert!(!is_supported_extension("\u{212a}pg"));
    assert!(!is_supported_extension("t\u{130}f"));
    assert!(!is_supported_extension("T\u{131}F"));
}

#[test]
fn agrees_with_lower_casing_by_the_standard_library() {
    let samples = [
        "jpg", "JPG", "Jpeg", "pNg", "WebP", "tIf", "TIFF", "bMP", "gif", "", "j", "jpgx",
        "\u{212a}pg", "t\u{130}f", "T\u{131}FF", "\u{ff2a}PG", "p\u{274}g", "BM\u{2119}",
    ];
    for ext in samples {
        let lowered = ext.to_lowercase();
        assert_eq!(is_supported_extension(ext), SUPPORTED.contains(&lowered.as_str()), "{}", ext);
    }
}

#[test]
fn a_path_is_judged_by_its_extension() {
    assert!(is_supported_image("photo.jpg"));
    assert!(is_supported_image("photo.JPG"));
    assert!(is_supported_image("/home/user/pictures/holiday.jpeg"));
    assert!(is_supported_image("relative/dir/scan.TIFF"));
    assert!(is_supported_image("shot.webp"));
    assert!(is_supported_image("old.bmp"));
    assert!(!is_supported_image("movie.mp4"));
    assert!(!is_supported_image("/home/user/notes.txt"));
}

#[test]
fn only_the_last_extension_counts() {
    assert!(is_supported_image("archive.tar.png"));
    assert!(!is_supported_image("photo.jpg.bak"));
    assert!(is_supported_image("..jpg"));
}

#[test]
fn a_path_without_extension_is_rejected() {
    assert!(!is_supported_image("photo"));
    assert!(!is_supported_image("/home/user/jpg"));
    assert!(!is_supported_image(""));
    assert!(!is_supported_image("/"));
    assert!(!is_supported_image(".."));
    assert!(!is_supported_image("photo."));
}

#[test]
fn a_leading_dot_starts_no_extension() {
    assert!(!is_supported_image(".jpg"));
    assert!(!is_supported_image("/home/user/.png"));
    assert!(is_supported_image("/home/user/.hidden.png"));
}

#[test]
fn the_extension_is_that_of_the_file_name() {
    assert!(!is_supported_image("album.jpg/cover"));
    assert!(is_supported_image("album.d/cover.jpg"));
    assert!(!is_supported_image("album.jpg/.."));
}
