//! What the file system answers to a request.

use vstd::prelude::*;
use vstd::string::*;

verus! {

/// The outcome of one file-system operation.
#[derive(Clone, Debug, PartialEq, Eq)]
pub enum FsReply {
    /// The operation was carried out.
    Done,
    /// The operation failed; the text is the system's report.
    Failed(String),
}

/// An outcome as plain values.
pub enum FsReplyView {
    Done,
    Failed(Seq<char>),
}

impl DeepView for FsReply {
    type V = FsReplyView;

    open spec fn deep_view(&self) -> FsReplyView {
        match self {
            FsReply::Done => FsReplyView::Done,
            FsReply::Failed(report) => FsReplyView::Failed(report@),
        }
    }
}

} // verus!
