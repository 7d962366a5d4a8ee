//! The batch classifier: from the candidate files of a scan to the records
//! of those that are images.
//!
//! Each candidate is probed on its own, which the caller may do for many at
//! once; `list_images` then merges what the probes found into one list, in
//! the order of the candidates. A candidate in which the probe found no
//! size is left out and is no error.

use vstd::prelude::*;
use vstd::string::*;
use crate::orientation::{get_orientation, orientation_of, Orientation};
use crate::probe::{get_fast_dimensions, probed_dimensions};

verus! {

/// The record of one image. Its orientation is always the one that its
/// width and height give: see `PhotoItem::wf`.
#[derive(Clone, Debug, PartialEq, Eq)]
pub struct PhotoItem {
    /// Where the image was found.
    pub path: String,
    /// Its width in pixels.
    pub width: u32,
    /// Its height in pixels.
    pub height: u32,
    /// Its shape.
    pub orientation: Orientation,
}

/// What a record says, as plain values.
pub struct PhotoItemView {
    pub path: Seq<char>,
    pub width: u32,
    pub height: u32,
    pub orientation: Orientation,
}

/// A candidate file after its probe.
#[derive(Clone, Debug, PartialEq, Eq)]
pub struct ProbedFile {
    /// The path of the file.
    pub path: String,
    /// The width and height found in its header, if any.
    pub dimensions: Option<(u32, u32)>,
}

impl DeepView for PhotoItem {
    type V = PhotoItemView;

    open spec fn deep_view(&self) -> PhotoItemView {
        PhotoItemView {
            path: self.path@,
            width: self.width,
            height: self.height,
            orientation: self.orientation,
        }
    }
}

impl DeepView for ProbedFile {
    type V = (Seq<char>, Option<(u32, u32)>);

    open spec fn deep_view(&self) -> (Seq<char>, Option<(u32, u32)>) {
        (self.path@, self.dimensions)
    }
}

/// The record of an image of the given size at `path`.
pub open spec fn record_of(path: Seq<char>, width: u32, height: u32) -> PhotoItemView {
    PhotoItemView { path, width, height, orientation: orientation_of(width as int, height as int) }
}

/// The record of a candidate, where a size was found in it.
pub open spec fn classified(file: (Seq<char>, Option<(u32, u32)>)) -> Option<PhotoItemView> {
    match file.1 {
        Some((width, height)) => Some(record_of(file.0, width, height)),
        None => None,
    }
}

/// The records of the candidates in which a size was found, in the order
/// of the candidates.
pub open spec fn catalog_of(files: Seq<(Seq<char>, Option<(u32, u32)>)>) -> Seq<PhotoItemView>
    decreases files.len(),
{
    if files.len() == 0 {
        seq![]
    } else {
        match classified(files.last()) {
            Some(item) => catalog_of(files.drop_last()).push(item),
            None => catalog_of(files.drop_last()),
        }
    }
}

impl PhotoItemView {
    /// Whether the orientation is the one that the sizes give.
    pub open spec fn wf(self) -> bool {
        self.orientation == orientation_of(self.width as int, self.height as int)
    }
}

impl PhotoItem {
    /// Whether the orientation is the one that the sizes give.
    pub open spec fn wf(&self) -> bool {
        self.deep_view().wf()
    }

    /// The record of an image of `width` by `height` pixels at `path`.
    pub fn new(path: String, width: u32, height: u32) -> (r: PhotoItem)
        ensures
            r.deep_view() == record_of(path@, width, height),
            r.wf(),
    {
        PhotoItem { path, width, height, orientation: get_orientation(width, height) }
    }
}

/// Probes the content `data` of the file at `path`.
pub fn probe(path: String, data: &[u8]) -> (r: ProbedFile)
    ensures
        r.deep_view() == (path@, probed_dimensions(data@)),
{
    ProbedFile { path, dimensions: get_fast_dimensions(data) }
}

/// No list of records is longer than the list of candidates it was made
/// from.
pub proof fn lemma_catalog_is_no_longer(files: Seq<(Seq<char>, Option<(u32, u32)>)>)
    ensures
        catalog_of(files).len() <= files.len(),
    decreases files.len(),
{
    if files.len() > 0 {
        lemma_catalog_is_no_longer(files.drop_last());
    }
}

/// Every record in a list made from candidates has the orientation that
/// its sizes give.
pub proof fn lemma_catalog_is_well_formed(files: Seq<(Seq<char>, Option<(u32, u32)>)>, i: int)
    requires
        0 <= i < catalog_of(files).len(),
    ensures
        catalog_of(files)[i].wf(),
    decreases files.len(),
{
    if files.len() > 0 {
        lemma_catalog_is_no_longer(files.drop_last());
        if i < catalog_of(files.drop_last()).len() {
            lemma_catalog_is_well_formed(files.drop_last(), i);
        }
    }
}

/// A record is in the list exactly if it is the record of a candidate with
/// a size: a candidate without one leaves no trace, and every other has its
/// record.
pub proof fn lemma_catalog_holds_the_sized(
    files: Seq<(Seq<char>, Option<(u32, u32)>)>,
    item: PhotoItemView,
)
    ensures
        catalog_of(files).contains(item) <==> exists|i: int|
            0 <= i < files.len() && classified(#[trigger] files[i]) == Some(item),
    decreases files.len(),
{
    if files.len() > 0 {
        let rest = files.drop_last();
        let listed = catalog_of(files);
        let before = catalog_of(rest);
        lemma_catalog_holds_the_sized(rest, item);
        if listed.contains(item) {
            let k = choose|k: int| 0 <= k < listed.len() && listed[k] == item;
            if k < before.len() {
                assert(before[k] == item);
                let i = choose|i: int|
                    0 <= i < rest.len() && classified(#[trigger] rest[i]) == Some(item);
                assert(classified(files[i]) == Some(item));
            } else {
                assert(classified(files[files.len() - 1]) == Some(item));
            }
        }
        if exists|i: int| 0 <= i < files.len() && classified(#[trigger] files[i]) == Some(item) {
            let i = choose|i: int|
                0 <= i < files.len() && classified(#[trigger] files[i]) == Some(item);
            if i < rest.len() {
                assert(classified(rest[i]) == Some(item));
                let k = choose|k: int| 0 <= k < before.len() && before[k] == item;
                assert(listed[k] == item);
            } else {
                assert(listed[listed.len() - 1] == item);
            }
        }
    }
}

/// Merges a batch of probed candidates into the list of image records. The
/// result holds one record for each candidate with a size, in the order of
/// the candidates, each with the orientation that its size gives; the
/// candidates without a size are left out.
pub fn list_images(files: &Vec<ProbedFile>) -> (r: Vec<PhotoItem>)
    ensures
        r.deep_view() == catalog_of(files.deep_view()),
        r.len() <= files.len(),
        forall|i: int| 0 <= i < r.len() ==> (#[trigger] r[i]).wf(),
{
    let mut items: Vec<PhotoItem> = Vec::new();
    let mut i: usize = 0;
    while i < files.len()
        invariant
            i <= files.len(),
            items.len() <= i,
            items.deep_view() == catalog_of(files.deep_view().take(i as int)),
            forall|k: int| 0 <= k < items.len() ==> (#[trigger] items[k]).wf(),
        decreases files.len() - i,
    {
        let ghost seen = files.deep_view().take(i as int + 1);
        assert(seen.drop_last() =~= files.deep_view().take(i as int));
        match files[i].dimensions {
            Some((width, height)) => {
                let item = PhotoItem::new(files[i].path.clone(), width, height);
                items.push(item);
            },
            None => {},
        }
        i = i + 1;
    }
    assert(files.deep_view().take(i as int) =~= files.deep_view());
    items
}

} // verus!
