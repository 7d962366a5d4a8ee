//! The rules of a photo-culling tool, apart from any reading or writing of
//! files: which files count as images, how an image is classified by its
//! shape, how a file is moved into a sorted folder, how a batch of moves is
//! summed up, and how the metadata of a photo is presented.
//!
//! The library never touches the file system. Where a task needs it, the
//! caller brings what was read (directory entries, file content) and
//! carries out what the library asks for (see `relocate` and `deletion`).
//!
//! - `extension`, `scan`: the extension filter and the choice of image files
//!   among the entries of a directory.
//! - `probe`, `orientation`, `catalog`: the size of an image from its
//!   header, its orientation, and the list of image records.
//! - `relocate`, `batch`, `deletion`: moving one file, summing up a batch of
//!   moves, deleting a file.
//! - `metadata`, `file_size`: the metadata record and the size text in it.
//! - `paths`, `reply`, `text`: path questions, outcomes of file-system
//!   operations, and small text routines.

pub mod batch;
pub mod catalog;
pub mod deletion;
pub mod extension;
pub mod file_size;
pub mod metadata;
pub mod orientation;
pub mod paths;
pub mod probe;
pub mod relocate;
pub mod reply;
pub mod scan;
pub mod text;
