//! The three questions this library asks of a path: what its file name is,
//! what its extension is, and what a name joined to a directory gives.
//!
//! The answers are the standard library's, by the path syntax of the
//! platform the crate is built for.

use vstd::prelude::*;
use vstd::string::*;
use crate::text::text_of;

verus! {

/// The final component of `path` as `std::path::Path::file_name` gives it,
/// or `None` where it finds none, as in a path that ends in `..`.
pub uninterp spec fn path_file_name(path: Seq<char>) -> Option<Seq<char>>;

/// The path that `std::path::Path::join` makes of the directory `dir` and
/// the name `name`.
pub uninterp spec fn joined_path(dir: Seq<char>, name: Seq<char>) -> Seq<char>;

/// The position of the last `.` in `name`, or -1 where it has none.
pub open spec fn last_dot(name: Seq<char>) -> int
    decreases name.len(),
{
    if name.len() == 0 {
        -1
    } else if name.last() == '.' {
        name.len() - 1
    } else {
        last_dot(name.drop_last())
    }
}

/// The extension of a file name: what follows its last `.`, unless the name
/// has no `.` or has its only `.` in front.
pub open spec fn name_extension(name: Seq<char>) -> Option<Seq<char>> {
    let dot = last_dot(name);
    if dot <= 0 {
        None
    } else {
        Some(name.skip(dot + 1))
    }
}

/// The extension of the file that `path` names, without the dot.
pub open spec fn path_extension(path: Seq<char>) -> Option<Seq<char>> {
    match path_file_name(path) {
        Some(name) => name_extension(name),
        None => None,
    }
}

/// A name without a dot has no extension.
pub proof fn lemma_no_dot_no_extension(name: Seq<char>)
    requires
        !name.contains('.'),
    ensures
        name_extension(name) is None,
    decreases name.len(),
{
    if name.len() > 0 {
        assert(name.contains(name.last()) && name.last() != '.') by {
            assert(name[name.len() - 1] == name.last());
        }
        assert forall|c: char| name.drop_last().contains(c) implies name.contains(c) by {
            let i = choose|i: int| 0 <= i < name.drop_last().len() && name.drop_last()[i] == c;
            assert(name[i] == c);
        }
        lemma_no_dot_no_extension(name.drop_last());
    }
}

/// The extension of a name made of a stem, a dot and an ending without a
/// dot is that ending, provided that the stem is not empty.
pub proof fn lemma_extension_of_name(stem: Seq<char>, ext: Seq<char>)
    requires
        stem.len() > 0,
        !ext.contains('.'),
    ensures
        last_dot(stem + seq!['.'] + ext) == stem.len(),
        name_extension(stem + seq!['.'] + ext) == Some(ext),
    decreases ext.len(),
{
    let name = stem + seq!['.'] + ext;
    if ext.len() == 0 {
        assert(name.last() == '.');
    } else {
        let shorter = ext.drop_last();
        assert(name.last() == ext.last());
        assert(ext.contains(ext.last()) && ext.last() != '.') by {
            assert(ext[ext.len() - 1] == ext.last());
        }
        assert forall|c: char| shorter.contains(c) implies ext.contains(c) by {
            let i = choose|i: int| 0 <= i < shorter.len() && shorter[i] == c;
            assert(ext[i] == c);
        }
        lemma_extension_of_name(stem, shorter);
        assert(name.drop_last() =~= stem + seq!['.'] + shorter);
    }
    assert(name.skip(stem.len() as int + 1) =~= ext);
}

/// A first dot that is the only one starts no extension: a name that is a
/// dot and an ending without a dot has none.
pub proof fn lemma_leading_dot_is_no_extension(ext: Seq<char>)
    requires
        !ext.contains('.'),
    ensures
        name_extension(seq!['.'] + ext) is None,
    decreases ext.len(),
{
    let name = seq!['.'] + ext;
    if ext.len() == 0 {
        assert(name.last() == '.');
    } else {
        let shorter = ext.drop_last();
        assert(name.last() == ext.last());
        assert(ext.contains(ext.last()) && ext.last() != '.') by {
            assert(ext[ext.len() - 1] == ext.last());
        }
        assert forall|c: char| shorter.contains(c) implies ext.contains(c) by {
            let i = choose|i: int| 0 <= i < shorter.len() && shorter[i] == c;
            assert(ext[i] == c);
        }
        lemma_leading_dot_is_no_extension(shorter);
        assert(name.drop_last() =~= seq!['.'] + shorter);
    }
}

/// The file name of a path, by `std::path::Path::file_name`.
#[verifier::external_body]
pub(crate) fn file_name(path: &str) -> (r: Option<String>)
    ensures
        text_of(r) == path_file_name(path@),
{
    std::path::Path::new(path).file_name().and_then(|name| name.to_str()).map(|name| name.to_owned())
}

/// The extension of a path, by `std::path::Path::extension`. As documented,
/// it is taken from the file name: there is none where the path has no file
/// name, where the name has no dot, and where its only dot comes first;
/// otherwise it is the part of the name after the last dot.
#[verifier::external_body]
pub(crate) fn extension(path: &str) -> (r: Option<String>)
    ensures
        text_of(r) == path_extension(path@),
{
    std::path::Path::new(path).extension().and_then(|ext| ext.to_str()).map(|ext| ext.to_owned())
}

/// A name adjoined to a directory, by `std::path::Path::join`.
#[verifier::external_body]
pub(crate) fn join(dir: &str, name: &str) -> (r: String)
    ensures
        r@ == joined_path(dir@, name@),
{
    std::path::Path::new(dir).join(name).to_string_lossy().into_owned()
}

} // verus!
