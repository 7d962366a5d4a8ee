//! Classification of an image by the relation of its width to its height.

use vstd::prelude::*;

verus! {

/// The shape of an image frame.
#[derive(Clone, Copy, Debug, PartialEq, Eq, Structural)]
pub enum Orientation {
    /// Wider than tall.
    Landscape,
    /// Taller than wide.
    Portrait,
    /// As wide as tall.
    Square,
}

/// The orientation of a frame of `width` by `height` pixels.
pub open spec fn orientation_of(width: int, height: int) -> Orientation {
    if width > height {
        Orientation::Landscape
    } else if height > width {
        Orientation::Portrait
    } else {
        Orientation::Square
    }
}

/// The name of an orientation, in lower case.
pub open spec fn label_of(orientation: Orientation) -> Seq<char> {
    match orientation {
        Orientation::Landscape => seq!['l', 'a', 'n', 'd', 's', 'c', 'a', 'p', 'e'],
        Orientation::Portrait => seq!['p', 'o', 'r', 't', 'r', 'a', 'i', 't'],
        Orientation::Square => seq!['s', 'q', 'u', 'a', 'r', 'e'],
    }
}

impl Orientation {
    /// The name of this orientation: `landscape`, `portrait` or `square`.
    pub fn as_str(&self) -> (r: &'static str)
        ensures
            r@ == label_of(*self),
    {
        proof {
            reveal_strlit("landscape");
            reveal_strlit("portrait");
            reveal_strlit("square");
        }
        match self {
            Orientation::Landscape => "landscape",
            Orientation::Portrait => "portrait",
            Orientation::Square => "square",
        }
    }
}

/// Classifies a frame of `w` by `h` pixels. Every pair of sizes has exactly
/// one orientation; equal sides give `Square`.
pub fn get_orientation(w: u32, h: u32) -> (r: Orientation)
    ensures
        r == orientation_of(w as int, h as int),
        r == Orientation::Landscape <==> w > h,
        r == Orientation::Portrait <==> h > w,
        r == Orientation::Square <==> w == h,
{
    if w > h {
        Orientation::Landscape
    } else if h > w {
        Orientation::Portrait
    } else {
        Orientation::Square
    }
}

} // verus!
