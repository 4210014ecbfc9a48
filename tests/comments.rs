use hn_reader::{Comment, CommentForest, FetchState, ToggleOutcome};

fn comment(id: u32, kids: &[u32]) -> Comment {
    Comment {
        id,
        by: Some("dang".to_string()),
        text: Some(format!("<p>comment {}</p>", id)),
        time: Some(1_700_000_000),
        kids: if kids.is_empty() { None } else { Some(kids.to_vec()) },
        deleted: false,
    }
}

fn fetch_ids(outcome: ToggleOutcome) -> Vec<u32> {
    match outcome {
        ToggleOutcome::Fetch(ids) => ids,
        other => panic!("fetch expected, got {:?}", other),
    }
}

fn children(forest: &CommentForest, id: u32) -> Vec<u32> {
    forest.get(id).unwrap().children.clone()
}

fn state(forest: &CommentForest, id: u32) -> FetchState {
    forest.get(id).unwrap().fetch_state
}

#[test]
fn expand_fail_and_retry() {
    let mut forest = CommentForest::new();
    forest.insert_fetched(comment(100, &[101, 102]));

    let ids = fetch_ids(forest.toggle_or_retry(100));
    assert_eq!(ids, vec![101, 102]);
    assert_eq!(state(&forest, 100), FetchState::Loading);
    forest.complete_fetch(100, vec![Some(comment(101, &[])), Some(comment(102, &[]))]);
    assert_eq!(children(&forest, 100), vec![101, 102]);
    assert_eq!(state(&forest, 100), FetchState::Idle);
    assert!(forest.contains(101) && forest.contains(102));

    let mut forest = CommentForest::new();
    forest.insert_fetched(comment(100, &[101, 102]));
    let ids = fetch_ids(forest.toggle_or_retry(100));
    forest.complete_fetch(100, vec![Some(comment(ids[0], &[])), None]);
    assert_eq!(state(&forest, 100), FetchState::Failed);
    assert!(children(&forest, 100).is_empty());
    assert!(!forest.contains(101));

    let ids = fetch_ids(forest.toggle_or_retry(100));
    assert_eq!(ids, vec![101, 102]);
    assert_eq!(state(&forest, 100), FetchState::Loading);
    forest.complete_fetch(100, vec![Some(comment(101, &[])), Some(comment(102, &[]))]);
    assert_eq!(children(&forest, 100), vec![101, 102]);
    assert_eq!(state(&forest, 100), FetchState::Idle);
    assert!(forest.get(100).unwrap().is_expanded);
}

#[test]
fn collapse_and_expand_use_the_cache() {
    let mut forest = CommentForest::new();
    forest.insert_fetched(comment(1, &[2, 3]));
    fetch_ids(forest.toggle_or_retry(1));
    forest.complete_fetch(1, vec![Some(comment(2, &[])), Some(comment(3, &[]))]);
    let cached = children(&forest, 1);

    assert!(matches!(forest.toggle_or_retry(1), ToggleOutcome::Collapsed));
    assert!(!forest.get(1).unwrap().is_expanded);
    assert_eq!(children(&forest, 1), cached);
    assert!(matches!(forest.toggle_or_retry(1), ToggleOutcome::Expanded));
    assert!(forest.get(1).unwrap().is_expanded);
    assert_eq!(children(&forest, 1), cached);
    assert_eq!(state(&forest, 1), FetchState::Idle);
}

#[test]
fn toggling_while_loading_or_unknown_is_ignored() {
    let mut forest = CommentForest::new();
    assert!(matches!(forest.toggle_or_retry(7), ToggleOutcome::Ignored));
    forest.insert_fetched(comment(7, &[8]));
    fetch_ids(forest.toggle_or_retry(7));
    assert!(matches!(forest.toggle_or_retry(7), ToggleOutcome::Ignored));
    assert_eq!(state(&forest, 7), FetchState::Loading);
    assert!(forest.get(7).unwrap().is_expanded);
}

#[test]
fn node_without_replies_just_expands() {
    let mut forest = CommentForest::new();
    forest.insert_fetched(comment(5, &[]));
    assert!(matches!(forest.toggle_or_retry(5), ToggleOutcome::Expanded));
    assert!(matches!(forest.toggle_or_retry(5), ToggleOutcome::Collapsed));
    assert_eq!(state(&forest, 5), FetchState::Idle);
}

#[test]
fn wrong_result_count_fails_the_node() {
    let mut forest = CommentForest::new();
    forest.insert_fetched(comment(1, &[2, 3]));
    fetch_ids(forest.toggle_or_retry(1));
    forest.complete_fetch(1, vec![Some(comment(2, &[]))]);
    assert_eq!(state(&forest, 1), FetchState::Failed);
    assert!(children(&forest, 1).is_empty());
}

#[test]
fn late_results_are_dropped() {
    let mut forest = CommentForest::new();
    forest.insert_fetched(comment(1, &[2]));
    forest.complete_fetch(1, vec![Some(comment(2, &[]))]);
    assert!(children(&forest, 1).is_empty());
    assert_eq!(state(&forest, 1), FetchState::Idle);
    assert!(!forest.contains(2));
    forest.complete_fetch(99, vec![]);
    assert!(!forest.contains(99));
}

#[test]
fn visible_rows_follow_expansion() {
    let mut forest = CommentForest::new();
    forest.insert_fetched(comment(1, &[3, 4]));
    forest.insert_fetched(comment(2, &[]));
    let roots = vec![1, 2, 9];
    assert_eq!(forest.visible_rows(&roots), vec![(1, 0), (2, 0)]);

    fetch_ids(forest.toggle_or_retry(1));
    assert_eq!(forest.visible_rows(&roots), vec![(1, 0), (2, 0)]);
    forest.complete_fetch(1, vec![Some(comment(3, &[5])), Some(comment(4, &[]))]);
    assert_eq!(forest.visible_rows(&roots), vec![(1, 0), (3, 1), (4, 1), (2, 0)]);

    fetch_ids(forest.toggle_or_retry(3));
    forest.complete_fetch(3, vec![Some(comment(5, &[]))]);
    assert_eq!(forest.visible_rows(&roots), vec![(1, 0), (3, 1), (5, 2), (4, 1), (2, 0)]);

    forest.toggle_or_retry(1);
    assert_eq!(forest.visible_rows(&roots), vec![(1, 0), (2, 0)]);
}

#[test]
fn a_cycle_is_listed_to_the_depth_bound() {
    let mut forest = CommentForest::new();
    forest.insert_fetched(comment(1, &[1]));
    fetch_ids(forest.toggle_or_retry(1));
    forest.complete_fetch(1, vec![Some(comment(1, &[1]))]);
    let rows = forest.visible_rows(&vec![1]);
    assert_eq!(rows.len(), 513);
    assert_eq!(rows[0], (1, 0));
    assert_eq!(rows[512], (1, 512));
}
