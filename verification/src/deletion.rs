//! Deleting a file: only a file that is there is deleted.

use vstd::prelude::*;
use vstd::string::*;
use crate::reply::{FsReply, FsReplyView};

verus! {

/// Why a deletion came to nothing.
#[derive(Clone, Debug, PartialEq, Eq)]
pub enum DeleteError {
    /// There is nothing at the path.
    NotFound,
    /// The file system refused to delete; the text is its report.
    Io(String),
}

/// A failure as plain values.
pub enum DeleteErrorView {
    NotFound,
    Io(Seq<char>),
}

/// What a deletion asks of its caller.
#[derive(Debug, PartialEq, Eq)]
pub enum DeleteStep {
    /// Delete the file, then conclude with the outcome.
    Remove,
    /// The deletion is over, and nothing was asked of the file system.
    Finish(Result<(), DeleteError>),
}

/// A step as plain values.
pub enum DeleteStepView {
    Remove,
    Finish(Result<(), DeleteErrorView>),
}

impl DeepView for DeleteError {
    type V = DeleteErrorView;

    open spec fn deep_view(&self) -> DeleteErrorView {
        match self {
            DeleteError::NotFound => DeleteErrorView::NotFound,
            DeleteError::Io(report) => DeleteErrorView::Io(report@),
        }
    }
}

impl DeepView for DeleteStep {
    type V = DeleteStepView;

    open spec fn deep_view(&self) -> DeleteStepView {
        match self {
            DeleteStep::Remove => DeleteStepView::Remove,
            DeleteStep::Finish(Ok(done)) => DeleteStepView::Finish(Ok(())),
            DeleteStep::Finish(Err(error)) => DeleteStepView::Finish(Err(error.deep_view())),
        }
    }
}

/// The result of a deletion whose removal had the outcome `reply`.
pub open spec fn concluded(reply: FsReplyView) -> Result<(), DeleteErrorView> {
    match reply {
        FsReplyView::Done => Ok(()),
        FsReplyView::Failed(report) => Err(DeleteErrorView::Io(report)),
    }
}

/// The text of the message for a failure.
pub open spec fn error_text(error: DeleteErrorView) -> Seq<char> {
    match error {
        DeleteErrorView::NotFound => seq![
            'F',
            'i',
            'l',
            'e',
            ' ',
            'n',
            'o',
            't',
            ' ',
            'f',
            'o',
            'u',
            'n',
            'd',
        ],
        DeleteErrorView::Io(report) => report,
    }
}

impl DeleteError {
    /// The message for this failure: `File not found`, or the report of the
    /// file system as it came.
    pub fn message(&self) -> (r: String)
        ensures
            r@ == error_text(self.deep_view()),
    {
        match self {
            DeleteError::NotFound => {
                proof {
                    reveal_strlit("File not found");
                }
                String::from_str("File not found")
            },
            DeleteError::Io(report) => report.clone(),
        }
    }
}

/// Begins the deletion of a file, given whether anything exists at its
/// path. A path at which nothing exists ends the deletion with `NotFound`,
/// and the file system is asked to change nothing; otherwise the file is to
/// be removed.
pub fn delete_file(exists: bool) -> (r: DeleteStep)
    ensures
        exists ==> r.deep_view() == DeleteStepView::Remove,
        !exists ==> r.deep_view() == DeleteStepView::Finish(Err(DeleteErrorView::NotFound)),
{
    if exists {
        DeleteStep::Remove
    } else {
        DeleteStep::Finish(Err(DeleteError::NotFound))
    }
}

/// Concludes a deletion with the outcome of the removal: a failure of the
/// file system is passed on with its report.
pub fn conclude(reply: FsReply) -> (r: Result<(), DeleteError>)
    ensures
        match r {
            Ok(_) => concluded(reply.deep_view()) == Ok::<(), DeleteErrorView>(()),
            Err(error) => concluded(reply.deep_view()) == Err::<(), DeleteErrorView>(
                error.deep_view(),
            ),
        },
{
    match reply {
        FsReply::Done => Ok(()),
        FsReply::Failed(report) => Err(DeleteError::Io(report)),
    }
}

} // verus!
