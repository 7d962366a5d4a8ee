//! The dimension probe: the pixel size of an image, read from the header of
//! its container without decoding any pixel data.
//!
//! Parsing the header is the work of the `imagesize` crate, built for JPEG,
//! PNG, WebP, TIFF and BMP. Content in which it finds no size (another
//! format, a damaged or truncated header) has none: the probe reports no
//! error.

use vstd::prelude::*;

verus! {

/// The length from which content is no longer probed: 2^33 bytes.
pub const PROBE_LIMIT: u64 = 0x2_0000_0000;

/// The width and height that `imagesize::blob_size` finds in the header of
/// `data`, or `None` where it reports an error.
pub uninterp spec fn header_size(data: Seq<u8>) -> Option<(usize, usize)>;

/// A size that a header states, cut to the 32 bits of a stored dimension.
pub open spec fn low_bits(size: usize) -> u32 {
    (size as int % 0x1_0000_0000) as u32
}

/// The dimensions that go with a parsed size.
pub open spec fn stored_dimensions(size: Option<(usize, usize)>) -> Option<(u32, u32)> {
    match size {
        Some((width, height)) => Some((low_bits(width), low_bits(height))),
        None => None,
    }
}

/// The dimensions of the image that `data` holds, where it holds one.
pub open spec fn probed_dimensions(data: Seq<u8>) -> Option<(u32, u32)> {
    if data.len() >= PROBE_LIMIT {
        None
    } else {
        stored_dimensions(header_size(data))
    }
}

/// Parses the header of an image held in memory, by `imagesize::blob_size`.
/// The parser reads nothing but `data`, so its outcome is a function of the
/// bytes: `header_size` names it, any error standing for `None`. The bound on
/// the length keeps the parser's count of nested JPEG start markers, a
/// 32-bit integer that rises at most once in four bytes, from overflowing.
#[verifier::external_body]
fn blob_size(data: &[u8]) -> (r: Option<(usize, usize)>)
    requires
        data@.len() < PROBE_LIMIT,
    ensures
        r == header_size(data@),
{
    match imagesize::blob_size(data) {
        Ok(size) => Some((size.width, size.height)),
        Err(_) => None,
    }
}

/// Cuts a parsed size to the dimensions that are stored.
pub fn narrow_dimensions(size: Option<(usize, usize)>) -> (r: Option<(u32, u32)>)
    ensures
        r == stored_dimensions(size),
{
    match size {
        Some((width, height)) => {
            let w = (width as u64 % 0x1_0000_0000) as u32;
            let h = (height as u64 % 0x1_0000_0000) as u32;
            Some((w, h))
        },
        None => None,
    }
}

/// Probes the content of a file for the width and height of the image in
/// it. Returns `None` where the header cannot be parsed, for whatever
/// reason, and for content of `PROBE_LIMIT` bytes or more, which is not
/// looked at.
pub fn get_fast_dimensions(data: &[u8]) -> (r: Option<(u32, u32)>)
    ensures
        r == probed_dimensions(data@),
{
    if data.len() as u64 >= PROBE_LIMIT {
        None
    } else {
        narrow_dimensions(blob_size(data))
    }
}

} // verus!
