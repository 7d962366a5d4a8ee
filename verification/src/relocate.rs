//! The file relocator: moving a file into a directory, by renaming it where
//! that works and by copying and deleting where it does not.
//!
//! The library decides, the caller acts. A relocation is a value that says
//! which file-system operation comes next; the caller carries it out and
//! hands the outcome to `Relocation::advance`, which answers with the next
//! operation or with the result. No operation is asked for unless the one
//! before it had the outcome that calls for it.

use vstd::prelude::*;
use vstd::string::*;
use crate::paths::{file_name, join, joined_path, path_file_name};
use crate::reply::{FsReply, FsReplyView};

verus! {

/// Why a relocation came to nothing.
#[derive(Clone, Debug, PartialEq, Eq)]
pub enum MoveError {
    /// The source path has no file name.
    InvalidFile,
    /// The file system refused an operation; the text is its report.
    Io(String),
}

/// A failure as plain values.
pub enum MoveErrorView {
    InvalidFile,
    Io(Seq<char>),
}

/// The file-system operation that a relocation waits for.
#[derive(Clone, Copy, Debug, PartialEq, Eq, Structural)]
pub enum MoveStage {
    /// Creating the destination directory with all its parents.
    CreateDir,
    /// Renaming the source to the target.
    Rename,
    /// Copying the content of the source to the target.
    Copy,
    /// Deleting the source.
    Remove,
}

/// A relocation under way.
#[derive(Clone, Debug, PartialEq, Eq)]
pub struct Relocation {
    /// The file to move.
    pub source: String,
    /// The directory to move it into.
    pub dest_dir: String,
    /// The path the file is to have: its name, in the directory.
    pub target: String,
    /// The operation to carry out next.
    pub stage: MoveStage,
}

/// A relocation as plain values.
pub struct RelocationView {
    pub source: Seq<char>,
    pub dest_dir: Seq<char>,
    pub target: Seq<char>,
    pub stage: MoveStage,
}

/// What a relocation asks of its caller.
#[derive(Debug, PartialEq, Eq)]
pub enum MoveStep {
    /// Carry out the operation of the stage, then advance with its outcome.
    Perform(Relocation),
    /// The relocation is over: the final path of the file, or the failure.
    Finish(Result<String, MoveError>),
}

/// A step as plain values.
pub enum MoveStepView {
    Perform(RelocationView),
    Finish(Result<Seq<char>, MoveErrorView>),
}

impl DeepView for MoveError {
    type V = MoveErrorView;

    open spec fn deep_view(&self) -> MoveErrorView {
        match self {
            MoveError::InvalidFile => MoveErrorView::InvalidFile,
            MoveError::Io(report) => MoveErrorView::Io(report@),
        }
    }
}

impl DeepView for Relocation {
    type V = RelocationView;

    open spec fn deep_view(&self) -> RelocationView {
        RelocationView {
            source: self.source@,
            dest_dir: self.dest_dir@,
            target: self.target@,
            stage: self.stage,
        }
    }
}

impl DeepView for MoveStep {
    type V = MoveStepView;

    open spec fn deep_view(&self) -> MoveStepView {
        match self {
            MoveStep::Perform(relocation) => MoveStepView::Perform(relocation.deep_view()),
            MoveStep::Finish(Ok(path)) => MoveStepView::Finish(Ok(path@)),
            MoveStep::Finish(Err(error)) => MoveStepView::Finish(Err(error.deep_view())),
        }
    }
}

/// The first step of moving `source` into `dest_dir`, the first operation
/// being that of `stage`. A source without a file name ends the relocation
/// at once, before anything is asked of the file system.
pub open spec fn begun(source: Seq<char>, dest_dir: Seq<char>, stage: MoveStage) -> MoveStepView {
    match path_file_name(source) {
        Some(name) => MoveStepView::Perform(
            RelocationView { source, dest_dir, target: joined_path(dest_dir, name), stage },
        ),
        None => MoveStepView::Finish(Err(MoveErrorView::InvalidFile)),
    }
}

/// The step that follows when the operation of `relocation.stage` had the
/// outcome `reply`.
///
/// The directory made, the file is renamed. A rename that works ends the
/// relocation; one that fails, for whatever reason, leads to a copy. The
/// copy made, the source is deleted, and with that the relocation ends.
/// A directory that cannot be made, a copy that fails and a source that
/// cannot be deleted end it with the system's report; after a failed copy
/// no deletion is asked for.
pub open spec fn advanced(relocation: RelocationView, reply: FsReplyView) -> MoveStepView {
    match (relocation.stage, reply) {
        (MoveStage::CreateDir, FsReplyView::Done) => MoveStepView::Perform(
            RelocationView { stage: MoveStage::Rename, ..relocation },
        ),
        (MoveStage::Rename, FsReplyView::Done) => MoveStepView::Finish(Ok(relocation.target)),
        (MoveStage::Rename, FsReplyView::Failed(_)) => MoveStepView::Perform(
            RelocationView { stage: MoveStage::Copy, ..relocation },
        ),
        (MoveStage::Copy, FsReplyView::Done) => MoveStepView::Perform(
            RelocationView { stage: MoveStage::Remove, ..relocation },
        ),
        (MoveStage::Remove, FsReplyView::Done) => MoveStepView::Finish(Ok(relocation.target)),
        (_, FsReplyView::Failed(report)) => MoveStepView::Finish(Err(MoveErrorView::Io(report))),
    }
}

/// The most operations that a relocation at `stage` may still ask for.
pub open spec fn operations_left(stage: MoveStage) -> nat {
    match stage {
        MoveStage::CreateDir => 4,
        MoveStage::Rename => 3,
        MoveStage::Copy => 2,
        MoveStage::Remove => 1,
    }
}

/// The text of the message for a failure.
pub open spec fn error_text(error: MoveErrorView) -> Seq<char> {
    match error {
        MoveErrorView::InvalidFile => seq!['I', 'n', 'v', 'a', 'l', 'i', 'd', ' ', 'f', 'i', 'l', 'e'],
        MoveErrorView::Io(report) => report,
    }
}

impl MoveError {
    /// The message for this failure: `Invalid file`, or the report of the
    /// file system as it came.
    pub fn message(&self) -> (r: String)
        ensures
            r@ == error_text(self.deep_view()),
    {
        match self {
            MoveError::InvalidFile => {
                proof {
                    reveal_strlit("Invalid file");
                }
                String::from_str("Invalid file")
            },
            MoveError::Io(report) => report.clone(),
        }
    }
}

/// Begins a relocation at the given stage.
fn begin(source: &str, dest_dir: &str, stage: MoveStage) -> (r: MoveStep)
    ensures
        r.deep_view() == begun(source@, dest_dir@, stage),
{
    match file_name(source) {
        Some(name) => {
            let target = join(dest_dir, name.as_str());
            MoveStep::Perform(
                Relocation {
                    source: String::from_str(source),
                    dest_dir: String::from_str(dest_dir),
                    target,
                    stage,
                },
            )
        },
        None => MoveStep::Finish(Err(MoveError::InvalidFile)),
    }
}

/// Begins the move of the file `source` into the directory `dest_dir`. The
/// directory is created first, with its parents, if it is not there; the
/// file keeps its name.
pub fn move_file(source: &str, dest_dir: &str) -> (r: MoveStep)
    ensures
        r.deep_view() == begun(source@, dest_dir@, MoveStage::CreateDir),
        path_file_name(source@) is None ==> r.deep_view() == MoveStepView::Finish(
            Err(MoveErrorView::InvalidFile),
        ),
{
    begin(source, dest_dir, MoveStage::CreateDir)
}

/// Begins the move of one file of a batch into `dest_dir`, a directory that
/// the caller has created for the whole batch. The relocation starts with
/// the rename.
pub fn move_in_batch(source: &str, dest_dir: &str) -> (r: MoveStep)
    ensures
        r.deep_view() == begun(source@, dest_dir@, MoveStage::Rename),
        path_file_name(source@) is None ==> r.deep_view() == MoveStepView::Finish(
            Err(MoveErrorView::InvalidFile),
        ),
{
    begin(source, dest_dir, MoveStage::Rename)
}

/// A relocation runs in order and comes to an end. Whatever the outcome of
/// an operation, the step that follows either ends the relocation or asks
/// for an operation further down the line, with the same paths. A copy is
/// asked for only after a rename that failed, a deletion only after a copy
/// that was made. The relocation ends well only on a rename or a deletion
/// that worked, and its result is then the target.
pub proof fn lemma_advance_progresses(relocation: RelocationView, reply: FsReplyView)
    ensures
        advanced(relocation, reply) matches MoveStepView::Perform(next) ==> {
            &&& next.source == relocation.source
            &&& next.dest_dir == relocation.dest_dir
            &&& next.target == relocation.target
            &&& operations_left(next.stage) < operations_left(relocation.stage)
            &&& next.stage == MoveStage::Copy ==> relocation.stage == MoveStage::Rename
                && reply is Failed
            &&& next.stage == MoveStage::Remove ==> relocation.stage == MoveStage::Copy
                && reply is Done
        },
        advanced(relocation, reply) matches MoveStepView::Finish(Ok(path)) ==> {
            &&& path == relocation.target
            &&& reply is Done
            &&& relocation.stage == MoveStage::Rename || relocation.stage == MoveStage::Remove
        },
        relocation.stage == MoveStage::Rename && reply is Done ==> advanced(relocation, reply)
            == MoveStepView::Finish(Ok(relocation.target)),
{
}

impl Relocation {
    /// Takes the outcome of the operation that this relocation waited for
    /// and says what comes next.
    pub fn advance(self, reply: FsReply) -> (r: MoveStep)
        ensures
            r.deep_view() == advanced(self.deep_view(), reply.deep_view()),
    {
        match reply {
            FsReply::Done => match self.stage {
                MoveStage::CreateDir => MoveStep::Perform(
                    Relocation {
                        source: self.source,
                        dest_dir: self.dest_dir,
                        target: self.target,
                        stage: MoveStage::Rename,
                    },
                ),
                MoveStage::Rename => MoveStep::Finish(Ok(self.target)),
                MoveStage::Copy => MoveStep::Perform(
                    Relocation {
                        source: self.source,
                        dest_dir: self.dest_dir,
                        target: self.target,
                        stage: MoveStage::Remove,
                    },
                ),
                MoveStage::Remove => MoveStep::Finish(Ok(self.target)),
            },
            FsReply::Failed(report) => match self.stage {
                MoveStage::Rename => MoveStep::Perform(
                    Relocation {
                        source: self.source,
                        dest_dir: self.dest_dir,
                        target: self.target,
                        stage: MoveStage::Copy,
                    },
                ),
                _ => MoveStep::Finish(Err(MoveError::Io(report))),
            },
        }
    }
}

} // verus!
