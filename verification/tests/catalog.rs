use photo_cull::catalog::{list_images, probe, PhotoItem, ProbedFile};
use photo_cull::orientation::Orientation;

fn probed(path: &str, dimensions: Option<(u32, u32)>) -> ProbedFile {
    ProbedFile { path: path.to_string(), dimensions }
}

fn item(path: &str, width: u32, height: u32, orientation: Orientation) -> PhotoItem {
    PhotoItem { path: path.to_string(), width, height, orientation }
}

fn png(width: u32, height: u32) -> Vec<u8> {
    let mut data = vec![0x89, b'P', b'N', b'G', 0x0d, 0x0a, 0x1a, 0x0a];
    data.extend_from_slice(&[0, 0, 0, 13]);
    data.extend_from_slice(b"IHDR");
    data.extend_from_slice(&width.to_be_bytes());
    data.extend_from_slice(&height.to_be_bytes());
    data.extend_from_slice(&[8, 6, 0, 0, 0, 0, 0, 0]);
    data
}

#[test]
fn a_record_has_the_orientation_of_its_size() {
    assert_eq!(
        PhotoItem::new("a.jpg".to_string(), 4000, 3000),
        item("a.jpg", 4000, 3000, Orientation::Landscape)
    );
    assert_eq!(
        PhotoItem::new("b.jpg".to_string(), 3000, 4000),
        item("b.jpg", 3000, 4000, Orientation::Portrait)
    );
    assert_eq!(
        PhotoItem::new("c.jpg".to_string(), 1080, 1080),
        item("c.jpg", 1080, 1080, Orientation::Square)
    );
}

#[test]
fn probing_keeps_the_path_and_finds_the_size() {
    assert_eq!(probe("a.png".to_string(), &png(30, 20)), probed("a.png", Some((30, 20))));
    assert_eq!(probe("b.png".to_string(), b"no image"), probed("b.png", None));
    assert_eq!(probe(String::new(), &[]), probed("", None));
}

#[test]
fn candidates_with_a_size_become_records() {
    let files = vec![
        probed("/p/wide.jpg", Some((1920, 1080))),
        probed("/p/tall.png", Some((1080, 1920))),
        probed("/p/even.bmp", Some((500, 500))),
    ];
    assert_eq!(
        list_images(&files),
        vec![
            item("/p/wide.jpg", 1920, 1080, Orientation::Landscape),
            item("/p/tall.png", 1080, 1920, Orientation::Portrait),
            item("/p/even.bmp", 500, 500, Orientation::Square),
        ]
    );
}

#[test]
fn candidates_without_a_size_are_left_out() {
    let files = vec![
        probed("/p/broken.jpg", None),
        probed("/p/fine.jpg", Some((10, 20))),
        probed("/p/empty.png", None),
    ];
    assert_eq!(list_images(&files), vec![item("/p/fine.jpg", 10, 20, Orientation::Portrait)]);
    assert_eq!(list_images(&vec![probed("x", None)]), Vec::new());
}

#[test]
fn no_candidates_give_no_records() {
    assert_eq!(list_images(&Vec::new()), Vec::new());
}

#[test]
fn an_image_of_no_extent_is_still_a_record() {
    assert_eq!(
        list_images(&vec![probed("zero.bmp", Some((0, 0)))]),
        vec![item("zero.bmp", 0, 0, Orientation::Square)]
    );
}

#[test]
fn probed_content_flows_into_the_list() {
    let files = vec![
        probe("one.png".to_string(), &png(640, 480)),
        probe("two.png".to_string(), &png(640, 480)[..12]),
        probe("three.png".to_string(), &png(7, 7)),
    ];
    assert_eq!(
        list_images(&files),
        vec![
            item("one.png", 640, 480, Orientation::Landscape),
            item("three.png", 7, 7, Orientation::Square),
        ]
    );
}
