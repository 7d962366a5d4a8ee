//! The extension filter: a file counts as an image where its extension,
//! letter case aside, is on a fixed list.
//!
//! Letter case is that of the letters `A` to `Z`. The list is made of
//! letters that no character beyond those has for its lower case, so that
//! nothing would change if the whole of Unicode were folded.

use vstd::prelude::*;
use vstd::string::*;
use crate::paths::{extension, lemma_extension_of_name, path_extension, path_file_name};

verus! {

/// The extensions of the image formats that are handled, in lower case.
pub open spec fn supported_extensions() -> Seq<Seq<char>> {
    seq![
        seq!['j', 'p', 'g'],
        seq!['j', 'p', 'e', 'g'],
        seq!['p', 'n', 'g'],
        seq!['w', 'e', 'b', 'p'],
        seq!['t', 'i', 'f'],
        seq!['t', 'i', 'f', 'f'],
        seq!['b', 'm', 'p'],
    ]
}

/// `c` in lower case, where it is one of the letters `A` to `Z`; any other
/// character is left as it is.
pub open spec fn lower(c: char) -> char {
    if 'A' <= c && c <= 'Z' {
        ((c as int) + 32) as char
    } else {
        c
    }
}

/// `text` with each of the letters `A` to `Z` in lower case.
pub open spec fn lowered(text: Seq<char>) -> Seq<char> {
    Seq::new(text.len(), |i: int| lower(text[i]))
}

/// Whether `ext` is a supported extension in some mix of upper and lower
/// case.
pub open spec fn supported_extension(ext: Seq<char>) -> bool {
    supported_extensions().contains(lowered(ext))
}

/// Whether `path` names a file with a supported extension. A path without
/// an extension does not.
pub open spec fn supported_image(path: Seq<char>) -> bool {
    match path_extension(path) {
        Some(ext) => supported_extension(ext),
        None => false,
    }
}

/// Whether `spelling` is `word` with some of its letters in upper case.
pub open spec fn is_spelling_of(spelling: Seq<char>, word: Seq<char>) -> bool {
    &&& spelling.len() == word.len()
    &&& forall|i: int|
        0 <= i < word.len() ==> spelling[i] == word[i] || ('a' <= word[i] && word[i] <= 'z'
            && spelling[i] as int == word[i] as int - 32)
}

/// Puts one of the letters `A` to `Z` in lower case.
fn lower_char(c: char) -> (r: char)
    ensures
        r == lower(c),
{
    if c >= 'A' && c <= 'Z' {
        ((c as u8) + 32) as char
    } else {
        c
    }
}

/// Compares `ext`, letter case aside, with the lower-case `word`.
fn matches_ignoring_case(ext: &str, word: &str) -> (r: bool)
    ensures
        r == (lowered(ext@) == word@),
{
    let n = ext.unicode_len();
    if n != word.unicode_len() {
        return false;
    }
    let mut i: usize = 0;
    while i < n
        invariant
            n == ext@.len(),
            n == word@.len(),
            i <= n,
            forall|k: int| 0 <= k < i ==> lower(ext@[k]) == word@[k],
        decreases n - i,
    {
        if lower_char(ext.get_char(i)) != word.get_char(i) {
            return false;
        }
        i = i + 1;
    }
    assert(lowered(ext@) =~= word@);
    true
}

/// Decides whether an extension (without the dot) is that of a supported
/// image format: `jpg`, `jpeg`, `png`, `webp`, `tif`, `tiff` or `bmp`, in
/// any mix of upper and lower case.
pub fn is_supported_extension(ext: &str) -> (r: bool)
    ensures
        r == supported_extension(ext@),
{
    proof {
        reveal_strlit("jpg");
        reveal_strlit("jpeg");
        reveal_strlit("png");
        reveal_strlit("webp");
        reveal_strlit("tif");
        reveal_strlit("tiff");
        reveal_strlit("bmp");
        let list = supported_extensions();
        assert(list[0] =~= "jpg"@);
        assert(list[1] =~= "jpeg"@);
        assert(list[2] =~= "png"@);
        assert(list[3] =~= "webp"@);
        assert(list[4] =~= "tif"@);
        assert(list[5] =~= "tiff"@);
        assert(list[6] =~= "bmp"@);
    }
    matches_ignoring_case(ext, "jpg") || matches_ignoring_case(ext, "jpeg")
        || matches_ignoring_case(ext, "png") || matches_ignoring_case(ext, "webp")
        || matches_ignoring_case(ext, "tif") || matches_ignoring_case(ext, "tiff")
        || matches_ignoring_case(ext, "bmp")
}

/// Decides whether a path names a file of a supported image format, going
/// by its extension alone.
pub fn is_supported_image(path: &str) -> (r: bool)
    ensures
        r == supported_image(path@),
{
    match extension(path) {
        Some(ext) => is_supported_extension(ext.as_str()),
        None => false,
    }
}

/// The extension filter accepts exactly the spellings of the supported
/// extensions: each of them with any of its letters in upper case, and
/// nothing else.
pub proof fn lemma_accepts_every_spelling(ext: Seq<char>)
    ensures
        supported_extension(ext) <==> exists|i: int|
            0 <= i < supported_extensions().len() && is_spelling_of(
                ext,
                #[trigger] supported_extensions()[i],
            ),
{
    let list = supported_extensions();
    assert forall|i: int| 0 <= i < list.len() implies (lowered(ext) == #[trigger] list[i]
        <==> is_spelling_of(ext, list[i])) by {
        if is_spelling_of(ext, list[i]) {
            assert(lowered(ext) =~= list[i]);
        }
    }
}

/// A path is judged by the ending of its file name: where the name is a
/// stem that is not empty, a dot and an ending without a dot, the path is
/// taken for an image exactly if the ending is a supported extension.
pub proof fn lemma_image_by_file_name(path: Seq<char>, stem: Seq<char>, ext: Seq<char>)
    requires
        path_file_name(path) == Some(stem + seq!['.'] + ext),
        stem.len() > 0,
        !ext.contains('.'),
    ensures
        supported_image(path) == supported_extension(ext),
{
    lemma_extension_of_name(stem, ext);
}

} // verus!
