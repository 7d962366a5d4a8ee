use photo_cull::batch::{batch_move_files, BatchMoveResult, MoveOutcome};
use photo_cull::relocate::MoveError;

fn outcome(source: &str, moved: bool) -> MoveOutcome {
    MoveOutcome { source: source.to_string(), moved }
}

fn names(list: &[&str]) -> Vec<String> {
    list.iter().map(|name| name.to_string()).collect()
}

#[test]
fn an_empty_batch_gives_two_empty_lists() {
    let result = batch_move_files(&Vec::new());
    assert_eq!(result, BatchMoveResult { success: Vec::new(), failed: Vec::new() });
}

#[test]
fn sources_are_sorted_by_their_outcome() {
    let outcomes = vec![
        outcome("a.jpg", true),
        outcome("b.jpg", false),
        outcome("c.png", true),
        outcome("..", false),
        outcome("d.tif", true),
    ];
    let result = batch_move_files(&outcomes);
    assert_eq!(result.success, names(&["a.jpg", "c.png", "d.tif"]));
    assert_eq!(result.failed, names(&["b.jpg", ".."]));
}

#[test]
fn a_batch_that_moves_everything_has_no_failures() {
    let result = batch_move_files(&vec![outcome("a", true), outcome("b", true)]);
    assert_eq!(result.success, names(&["a", "b"]));
    assert_eq!(result.failed, names(&[]));
}

#[test]
fn a_batch_that_moves_nothing_has_no_successes() {
    let result = batch_move_files(&vec![outcome("a", false), outcome("b", false)]);
    assert_eq!(result.success, names(&[]));
    assert_eq!(result.failed, names(&["a", "b"]));
}

#[test]
fn every_source_lands_in_exactly_one_list() {
    let mut pattern: u32 = 0;
    while pattern < 256 {
        let mut outcomes = Vec::new();
        let mut i = 0;
        while i < 8 {
            outcomes.push(outcome(&format!("file{}.jpg", i), pattern >> i & 1 == 1));
            i += 1;
        }
        let result = batch_move_files(&outcomes);
        assert_eq!(result.success.len() + result.failed.len(), outcomes.len());
        for each in &outcomes {
            assert_eq!(result.success.contains(&each.source), each.moved);
            assert_eq!(result.failed.contains(&each.source), !each.moved);
        }
        let mut merged = result.success.clone();
        merged.extend(result.failed.iter().cloned());
        merged.sort();
        let mut sources: Vec<String> = outcomes.iter().map(|each| each.source.clone()).collect();
        sources.sort();
        assert_eq!(merged, sources);
        pattern += 1;
    }
}

#[test]
fn a_source_named_twice_is_listed_twice() {
    // The same file twice in one batch: the first move takes it away, the
    // second finds nothing to move.
    let result = batch_move_files(&vec![outcome("a.jpg", true), outcome("a.jpg", false)]);
    assert_eq!(result.success, names(&["a.jpg"]));
    assert_eq!(result.failed, names(&["a.jpg"]));
    let result = batch_move_files(&vec![outcome("b", false), outcome("b", false)]);
    assert_eq!(result.failed, names(&["b", "b"]));
}

#[test]
fn an_outcome_follows_from_the_result_of_the_move() {
    let moved = MoveOutcome::new("a.jpg".to_string(), &Ok("/sorted/a.jpg".to_string()));
    assert_eq!(moved, outcome("a.jpg", true));
    let invalid = MoveOutcome::new("..".to_string(), &Err(MoveError::InvalidFile));
    assert_eq!(invalid, outcome("..", false));
    let refused = MoveOutcome::new("b".to_string(), &Err(MoveError::Io("denied".to_string())));
    assert_eq!(refused, outcome("b", false));
}
