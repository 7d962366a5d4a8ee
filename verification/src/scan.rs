//! The directory scanner's choice: of the entries found in a directory, or
//! in a tree below it, the regular files with a supported extension.

use vstd::prelude::*;
use vstd::string::*;
use crate::extension::{is_supported_image, supported_image};

verus! {

/// How deep a recursive scan goes where the caller names no depth.
pub const DEFAULT_DEPTH: usize = 3;

/// One entry that a scan came upon.
#[derive(Clone, Debug, PartialEq, Eq)]
pub struct ScanEntry {
    /// The path of the entry.
    pub path: String,
    /// Whether the entry is a regular file.
    pub is_file: bool,
}

impl DeepView for ScanEntry {
    type V = (Seq<char>, bool);

    open spec fn deep_view(&self) -> (Seq<char>, bool) {
        (self.path@, self.is_file)
    }
}

/// Whether an entry is taken for an image.
pub open spec fn is_image_entry(entry: (Seq<char>, bool)) -> bool {
    entry.1 && supported_image(entry.0)
}

/// The paths of the entries that are taken for images, in the order of the
/// entries.
pub open spec fn image_paths_of(entries: Seq<(Seq<char>, bool)>) -> Seq<Seq<char>>
    decreases entries.len(),
{
    if entries.len() == 0 {
        seq![]
    } else if is_image_entry(entries.last()) {
        image_paths_of(entries.drop_last()).push(entries.last().0)
    } else {
        image_paths_of(entries.drop_last())
    }
}

impl ScanEntry {
    /// Whether this entry is a regular file with a supported extension.
    pub fn is_image(&self) -> (r: bool)
        ensures
            r == is_image_entry(self.deep_view()),
    {
        self.is_file && is_supported_image(self.path.as_str())
    }
}

/// A path is picked exactly if it is the path of an entry that is taken
/// for an image: nothing else gets in, and no image is passed over.
pub proof fn lemma_picked_are_the_images(entries: Seq<(Seq<char>, bool)>, path: Seq<char>)
    ensures
        image_paths_of(entries).contains(path) <==> exists|i: int|
            0 <= i < entries.len() && is_image_entry(#[trigger] entries[i]) && entries[i].0 == path,
    decreases entries.len(),
{
    if entries.len() > 0 {
        let rest = entries.drop_last();
        let last = entries.last();
        let picked = image_paths_of(entries);
        let before = image_paths_of(rest);
        lemma_picked_are_the_images(rest, path);
        if picked.contains(path) {
            let k = choose|k: int| 0 <= k < picked.len() && picked[k] == path;
            if k < before.len() {
                assert(before[k] == path);
                let i = choose|i: int|
                    0 <= i < rest.len() && is_image_entry(#[trigger] rest[i]) && rest[i].0 == path;
                assert(is_image_entry(entries[i]) && entries[i].0 == path);
            } else {
                assert(is_image_entry(entries[entries.len() - 1]) && last.0 == path);
            }
        }
        if exists|i: int|
            0 <= i < entries.len() && is_image_entry(#[trigger] entries[i]) && entries[i].0 == path {
            let i = choose|i: int|
                0 <= i < entries.len() && is_image_entry(#[trigger] entries[i]) && entries[i].0
                    == path;
            if i < rest.len() {
                assert(is_image_entry(rest[i]) && rest[i].0 == path);
                let k = choose|k: int| 0 <= k < before.len() && before[k] == path;
                assert(picked[k] == path);
            } else {
                assert(picked[picked.len() - 1] == path);
            }
        }
    }
}

/// Picks the image files out of what a scan found: the paths of the regular
/// files with a supported extension, in the order in which they were found.
pub fn image_paths(entries: &Vec<ScanEntry>) -> (r: Vec<String>)
    ensures
        r.deep_view() == image_paths_of(entries.deep_view()),
        r.len() <= entries.len(),
{
    let mut paths: Vec<String> = Vec::new();
    let mut i: usize = 0;
    while i < entries.len()
        invariant
            i <= entries.len(),
            paths.len() <= i,
            paths.deep_view() == image_paths_of(entries.deep_view().take(i as int)),
        decreases entries.len() - i,
    {
        let ghost seen = entries.deep_view().take(i as int + 1);
        assert(seen.drop_last() =~= entries.deep_view().take(i as int));
        if entries[i].is_image() {
            paths.push(entries[i].path.clone());
        }
        i = i + 1;
    }
    assert(entries.deep_view().take(i as int) =~= entries.deep_view());
    paths
}

/// Counts the image files among what a scan found.
pub fn get_image_count(entries: &Vec<ScanEntry>) -> (r: usize)
    ensures
        r == image_paths_of(entries.deep_view()).len(),
{
    let mut count: usize = 0;
    let mut i: usize = 0;
    while i < entries.len()
        invariant
            i <= entries.len(),
            count <= i,
            count == image_paths_of(entries.deep_view().take(i as int)).len(),
        decreases entries.len() - i,
    {
        let ghost seen = entries.deep_view().take(i as int + 1);
        assert(seen.drop_last() =~= entries.deep_view().take(i as int));
        if entries[i].is_image() {
            count = count + 1;
        }
        i = i + 1;
    }
    assert(entries.deep_view().take(i as int) =~= entries.deep_view());
    count
}

/// The depth to which a recursive scan descends: the one asked for, or
/// `DEFAULT_DEPTH` where none is.
pub fn walk_depth(max_depth: Option<usize>) -> (r: usize)
    ensures
        r == match max_depth {
            Some(depth) => depth,
            None => DEFAULT_DEPTH,
        },
{
    match max_depth {
        Some(depth) => depth,
        None => DEFAULT_DEPTH,
    }
}

} // verus!
