use photo_cull::orientation::{get_orientation, Orientation};

#[test]
fn wider_than_tall_is_landscape() {
    assert_eq!(get_orientation(1920, 1080), Orientation::Landscape);
    assert_eq!(get_orientation(2, 1), Orientation::Landscape);
    assert_eq!(get_orientation(u32::MAX, 0), Orientation::Landscape);
}

#[test]
fn taller_than_wide_is_portrait() {
    assert_eq!(get_orientation(1080, 1920), Orientation::Portrait);
    assert_eq!(get_orientation(1, 2), Orientation::Portrait);
    assert_eq!(get_orientation(0, u32::MAX), Orientation::Portrait);
}

#[test]
fn equal_sides_are_square() {
    assert_eq!(get_orientation(0, 0), Orientation::Square);
    assert_eq!(get_orientation(512, 512), Orientation::Square);
    assert_eq!(get_orientation(u32::MAX, u32::MAX), Orientation::Square);
}

#[test]
fn every_small_frame_has_the_orientation_of_its_sides() {
    let mut w: u32 = 0;
    while w < 60 {
        let mut h: u32 = 0;
        while h < 60 {
            let got = get_orientation(w, h);
            assert_eq!(got == Orientation::Landscape, w > h);
            assert_eq!(got == Orientation::Portrait, h > w);
            assert_eq!(got == Orientation::Square, w == h);
            h += 1;
        }
        w += 1;
    }
}

#[test]
fn orientations_are_named_in_lower_case() {
    assert_eq!(Orientation::Landscape.as_str(), "landscape");
    assert_eq!(Orientation::Portrait.as_str(), "portrait");
    assert_eq!(Orientation::Square.as_str(), "square");
}
