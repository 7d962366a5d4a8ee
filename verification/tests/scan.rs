use photo_cull::scan::{get_image_count, image_paths, walk_depth, ScanEntry, DEFAULT_DEPTH};

fn entry(path: &str, is_file: bool) -> ScanEntry {
    ScanEntry { path: path.to_string(), is_file }
}

fn listing() -> Vec<ScanEntry> {
    vec![
        entry("/pics/a.jpg", true),
        entry("/pics/notes.txt", true),
        entry("/pics/album.png", false),
        entry("/pics/B.PNG", true),
        entry("/pics/sub", false),
        entry("/pics/.hidden", true),
        entry("/pics/c.webp", true),
        entry("/pics/raw.cr2", true),
        entry("/pics/d.TiFf", true),
    ]
}

#[test]
fn image_files_are_picked_in_order() {
    assert_eq!(
        image_paths(&listing()),
        vec!["/pics/a.jpg", "/pics/B.PNG", "/pics/c.webp", "/pics/d.TiFf"]
    );
}

#[test]
fn a_directory_with_an_image_name_is_no_image() {
    assert_eq!(image_paths(&vec![entry("/pics/album.png", false)]), Vec::<String>::new());
    assert!(!entry("/pics/album.png", false).is_image());
    assert!(entry("/pics/album.png", true).is_image());
    assert!(!entry("/pics/album", true).is_image());
}

#[test]
fn an_empty_listing_has_no_images() {
    assert_eq!(image_paths(&Vec::new()), Vec::<String>::new());
    assert_eq!(get_image_count(&Vec::new()), 0);
}

#[test]
fn images_are_counted() {
    assert_eq!(get_image_count(&listing()), 4);
    assert_eq!(get_image_count(&vec![entry("x.bmp", true)]), 1);
    assert_eq!(get_image_count(&vec![entry("x.bmp", false), entry("y", true)]), 0);
}

#[test]
fn the_count_is_the_number_of_paths_picked() {
    let mut entries = Vec::new();
    let names = ["a.jpg", "b.gif", "c", "d.JPEG", "e.png", ".bmp", "f.tif.old"];
    let mut round = 0;
    while round < 50 {
        entries.push(entry(names[round * 3 % names.len()], round % 4 != 0));
        assert_eq!(get_image_count(&entries), image_paths(&entries).len());
        round += 1;
    }
}

#[test]
fn the_depth_defaults_to_three() {
    assert_eq!(DEFAULT_DEPTH, 3);
    assert_eq!(walk_depth(None), 3);
}

#[test]
fn a_depth_that_is_asked_for_is_used() {
    assert_eq!(walk_depth(Some(0)), 0);
    assert_eq!(walk_depth(Some(1)), 1);
    assert_eq!(walk_depth(Some(3)), 3);
    assert_eq!(walk_depth(Some(usize::MAX)), usize::MAX);
}
