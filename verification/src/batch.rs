//! The batch relocator's merge: from the outcome of each file of a batch to
//! the two lists of the result.
//!
//! Every file of the batch is relocated on its own (see `relocate`), and a
//! failure stays with its file. The merge then sorts the sources into those
//! that were moved and those that were not. Nothing is lost and nothing is
//! made up: the two lists together hold each source as often as the batch
//! did.

use vstd::prelude::*;
use vstd::string::*;
use vstd::multiset::lemma_multiset_empty_len;
use vstd::seq_lib::to_multiset_build;
use crate::relocate::MoveError;

verus! {

/// What became of one file of a batch.
#[derive(Clone, Debug, PartialEq, Eq)]
pub struct MoveOutcome {
    /// The path that was to be moved, as the batch named it.
    pub source: String,
    /// Whether the file is now in the destination directory.
    pub moved: bool,
}

/// The result of a batch: the sources that were moved and those that were
/// not, each list in the order of the outcomes it was made from.
#[derive(Clone, Debug, PartialEq, Eq)]
pub struct BatchMoveResult {
    pub success: Vec<String>,
    pub failed: Vec<String>,
}

impl DeepView for MoveOutcome {
    type V = (Seq<char>, bool);

    open spec fn deep_view(&self) -> (Seq<char>, bool) {
        (self.source@, self.moved)
    }
}

/// The sources of a batch, in order.
pub open spec fn sources_of(outcomes: Seq<(Seq<char>, bool)>) -> Seq<Seq<char>> {
    Seq::new(outcomes.len(), |i: int| outcomes[i].0)
}

/// The sources whose outcome is `moved`, in order.
pub open spec fn sources_with(outcomes: Seq<(Seq<char>, bool)>, moved: bool) -> Seq<Seq<char>>
    decreases outcomes.len(),
{
    if outcomes.len() == 0 {
        seq![]
    } else if outcomes.last().1 == moved {
        sources_with(outcomes.drop_last(), moved).push(outcomes.last().0)
    } else {
        sources_with(outcomes.drop_last(), moved)
    }
}

impl MoveOutcome {
    /// The outcome of the file `source` whose relocation ended in `result`:
    /// moved where it ended well, not moved where it ended in any failure.
    pub fn new(source: String, result: &Result<String, MoveError>) -> (r: MoveOutcome)
        ensures
            r.deep_view() == (source@, result is Ok),
    {
        MoveOutcome { source, moved: result.is_ok() }
    }
}

/// The two lists of a batch hold its sources, all of them and no others:
/// each source occurs in the two lists together as often as in the batch.
pub proof fn lemma_partition_is_total(outcomes: Seq<(Seq<char>, bool)>)
    ensures
        sources_with(outcomes, true).to_multiset().add(sources_with(outcomes, false).to_multiset())
            == sources_of(outcomes).to_multiset(),
        sources_with(outcomes, true).len() + sources_with(outcomes, false).len() == outcomes.len(),
    decreases outcomes.len(),
{
    let moved = sources_with(outcomes, true);
    let failed = sources_with(outcomes, false);
    if outcomes.len() == 0 {
        moved.to_multiset_ensures();
        failed.to_multiset_ensures();
        sources_of(outcomes).to_multiset_ensures();
        lemma_multiset_empty_len(moved.to_multiset());
        lemma_multiset_empty_len(failed.to_multiset());
        lemma_multiset_empty_len(sources_of(outcomes).to_multiset());
        assert(moved.to_multiset().add(failed.to_multiset()) =~= sources_of(
            outcomes,
        ).to_multiset());
    } else {
        let rest = outcomes.drop_last();
        let last = outcomes.last();
        lemma_partition_is_total(rest);
        assert(sources_of(outcomes) =~= sources_of(rest).push(last.0));
        to_multiset_build(sources_of(rest), last.0);
        to_multiset_build(sources_with(rest, true), last.0);
        to_multiset_build(sources_with(rest, false), last.0);
        assert(moved.to_multiset().add(failed.to_multiset()) =~= sources_of(
            outcomes,
        ).to_multiset());
    }
}

/// Every path in one of the two lists is the source of an outcome of that
/// kind.
proof fn lemma_listed_has_outcome(outcomes: Seq<(Seq<char>, bool)>, moved: bool, path: Seq<char>)
    requires
        sources_with(outcomes, moved).contains(path),
    ensures
        exists|i: int| 0 <= i < outcomes.len() && outcomes[i] == (path, moved),
    decreases outcomes.len(),
{
    if outcomes.len() > 0 && outcomes.last() != (path, moved) {
        let rest = outcomes.drop_last();
        lemma_listed_has_outcome(rest, moved, path);
        let i = choose|i: int| 0 <= i < rest.len() && rest[i] == (path, moved);
        assert(outcomes[i] == (path, moved));
    }
}

/// Where no source occurs twice in a batch, none occurs twice in a list.
proof fn lemma_list_has_no_duplicates(outcomes: Seq<(Seq<char>, bool)>, moved: bool)
    requires
        sources_of(outcomes).no_duplicates(),
    ensures
        sources_with(outcomes, moved).no_duplicates(),
    decreases outcomes.len(),
{
    if outcomes.len() > 0 {
        let rest = outcomes.drop_last();
        let last = outcomes.last();
        assert forall|i: int, j: int|
            0 <= i < rest.len() && 0 <= j < rest.len() && i != j implies sources_of(rest)[i]
            != sources_of(rest)[j] by {
            assert(sources_of(outcomes)[i] != sources_of(outcomes)[j]);
        }
        lemma_list_has_no_duplicates(rest, moved);
        if last.1 == moved {
            let before = sources_with(rest, moved);
            if before.contains(last.0) {
                lemma_listed_has_outcome(rest, moved, last.0);
                let i = choose|i: int| 0 <= i < rest.len() && rest[i] == (last.0, moved);
                assert(sources_of(outcomes)[i] == sources_of(outcomes)[outcomes.len() - 1]);
            }
            assert forall|i: int, j: int|
                0 <= i < before.len() + 1 && 0 <= j < before.len() + 1 && i != j implies before.push(
                last.0,
            )[i] != before.push(last.0)[j] by {
                if i < before.len() {
                    assert(before.contains(before[i]));
                }
                if j < before.len() {
                    assert(before.contains(before[j]));
                }
            }
        }
    }
}

/// Where no source occurs twice in a batch, no path is in both lists, and
/// none occurs twice in either: each source is in exactly one of them.
pub proof fn lemma_partition_is_disjoint(outcomes: Seq<(Seq<char>, bool)>)
    requires
        sources_of(outcomes).no_duplicates(),
    ensures
        sources_with(outcomes, true).no_duplicates(),
        sources_with(outcomes, false).no_duplicates(),
        forall|path: Seq<char>|
            !(sources_with(outcomes, true).contains(path) && sources_with(outcomes, false).contains(
                path,
            )),
{
    lemma_list_has_no_duplicates(outcomes, true);
    lemma_list_has_no_duplicates(outcomes, false);
    assert forall|path: Seq<char>|
        !(sources_with(outcomes, true).contains(path) && sources_with(outcomes, false).contains(
            path,
        )) by {
        if sources_with(outcomes, true).contains(path) && sources_with(outcomes, false).contains(
            path,
        ) {
            lemma_listed_has_outcome(outcomes, true, path);
            lemma_listed_has_outcome(outcomes, false, path);
            let i = choose|i: int| 0 <= i < outcomes.len() && outcomes[i] == (path, true);
            let j = choose|j: int| 0 <= j < outcomes.len() && outcomes[j] == (path, false);
            assert(sources_of(outcomes)[i] == sources_of(outcomes)[j]);
        }
    }
}

/// Merges the outcomes of a batch into its result. A source goes to
/// `success` where its file was moved and to `failed` where it was not, for
/// whatever reason; the order of the outcomes is kept within each list. An
/// empty batch gives two empty lists.
pub fn batch_move_files(outcomes: &Vec<MoveOutcome>) -> (r: BatchMoveResult)
    ensures
        r.success.deep_view() == sources_with(outcomes.deep_view(), true),
        r.failed.deep_view() == sources_with(outcomes.deep_view(), false),
        r.success.len() + r.failed.len() == outcomes.len(),
        r.success.deep_view().to_multiset().add(r.failed.deep_view().to_multiset()) == sources_of(
            outcomes.deep_view(),
        ).to_multiset(),
{
    let mut success: Vec<String> = Vec::new();
    let mut failed: Vec<String> = Vec::new();
    let mut i: usize = 0;
    while i < outcomes.len()
        invariant
            i <= outcomes.len(),
            success.deep_view() == sources_with(outcomes.deep_view().take(i as int), true),
            failed.deep_view() == sources_with(outcomes.deep_view().take(i as int), false),
        decreases outcomes.len() - i,
    {
        let ghost seen = outcomes.deep_view().take(i as int + 1);
        assert(seen.drop_last() =~= outcomes.deep_view().take(i as int));
        if outcomes[i].moved {
            success.push(outcomes[i].source.clone());
        } else {
            failed.push(outcomes[i].source.clone());
        }
        i = i + 1;
    }
    assert(outcomes.deep_view().take(i as int) =~= outcomes.deep_view());
    proof {
        lemma_partition_is_total(outcomes.deep_view());
    }
    BatchMoveResult { success, failed }
}

} // verus!
