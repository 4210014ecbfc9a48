use hn_reader::{
    is_near_bottom, FeedState, IdList, ListContent, Story, StoryListType, BATCH_SIZE, SCROLL_END_MARGIN,
};

fn story(id: u32) -> Story {
    Story {
        id,
        title: Some(format!("story {}", id)),
        url: None,
        by: Some("pg".to_string()),
        score: Some(10),
        time: Some(1_700_000_000),
        descendants: Some(0),
        kids: None,
    }
}

fn ready_feed(ids: Vec<u32>, base: usize) -> FeedState {
    let mut f = FeedState::new(StoryListType::Best, base);
    let req = f.id_request();
    f.receive_ids(req.generation, Ok(ids));
    f
}

fn ids_of(f: &FeedState) -> Vec<u32> {
    f.stories().iter().map(|s| s.id).collect()
}

#[test]
fn failed_item_is_retried_only_by_an_overlapping_range() {
    let mut f = ready_feed(vec![1, 2, 3, 4, 5], 2);
    let batch = f.reconcile().expect("first batch");
    assert_eq!(batch.ids, vec![1, 2]);
    f.complete_batch(batch.generation, vec![Ok(story(1)), Err("timeout".to_string())]);
    assert_eq!(ids_of(&f), vec![1]);
    assert!(f.error().is_some());
    assert_eq!(f.loaded_count(), 2);
    assert!(!f.is_loading_more());

    f.advance_load_target(2);
    assert_eq!(f.loaded_count(), 4);
    let batch = f.reconcile().expect("second batch");
    assert_eq!(batch.ids, vec![2, 3, 4]);
}

#[test]
fn load_target_grows_and_stops_at_the_list_end() {
    let mut f = ready_feed(vec![1, 2, 3, 4, 5, 6, 7], 2);
    let mut last = f.loaded_count();
    for n in [0usize, 3, 1, 10, 4, usize::MAX] {
        f.advance_load_target(n);
        assert!(f.loaded_count() >= last);
        assert!(f.loaded_count() <= 7);
        last = f.loaded_count();
    }
    assert_eq!(last, 7);
}

#[test]
fn load_target_values() {
    let mut f = ready_feed(vec![1, 2, 3, 4, 5], 2);
    f.advance_load_target(0);
    assert_eq!(f.loaded_count(), 2);
    f.advance_load_target(1);
    assert_eq!(f.loaded_count(), 3);
    f.advance_load_target(100);
    assert_eq!(f.loaded_count(), 5);
}

#[test]
fn load_target_above_the_list_stays() {
    let mut f = ready_feed(vec![1, 2, 3], BATCH_SIZE);
    f.advance_load_target(BATCH_SIZE);
    assert_eq!(f.loaded_count(), BATCH_SIZE);
}

#[test]
fn load_target_without_ids_is_unchanged() {
    let mut f = FeedState::new(StoryListType::Top, 2);
    f.advance_load_target(5);
    assert_eq!(f.loaded_count(), 2);
}

#[test]
fn batch_with_failures_appends_the_rest() {
    let mut f = ready_feed(vec![10, 11, 12, 13], 4);
    let batch = f.reconcile().unwrap();
    assert_eq!(batch.ids, vec![10, 11, 12, 13]);
    assert!(f.is_loading_more());
    f.complete_batch(
        batch.generation,
        vec![Ok(story(12)), Err("a".to_string()), Ok(story(10)), Err("b".to_string())],
    );
    assert_eq!(ids_of(&f), vec![12, 10]);
    assert!(!f.is_loading_more());
    assert_eq!(f.error().unwrap(), "Failed to fetch/parse story: b");
}

#[test]
fn batch_without_failures_keeps_error_clear() {
    let mut f = ready_feed(vec![1, 2], 2);
    let batch = f.reconcile().unwrap();
    f.complete_batch(batch.generation, vec![Ok(story(2)), Ok(story(1))]);
    assert_eq!(ids_of(&f), vec![2, 1]);
    assert!(f.error().is_none());
}

#[test]
fn reconcile_in_flight_is_a_no_op() {
    let mut f = ready_feed(vec![1, 2, 3, 4], 2);
    assert!(f.reconcile().is_some());
    assert!(f.reconcile().is_none());
    f.advance_load_target(2);
    assert!(f.reconcile().is_none());
    assert!(f.is_loading_more());
}

#[test]
fn reconcile_with_nothing_due() {
    let mut f = ready_feed(vec![], 2);
    assert!(f.reconcile().is_none());
    let mut g = FeedState::new(StoryListType::New, 2);
    assert!(g.reconcile().is_none());
    assert!(!g.is_loading_more());
}

#[test]
fn reset_clears_state() {
    let mut f = ready_feed(vec![1, 2, 3], 2);
    let batch = f.reconcile().unwrap();
    f.complete_batch(batch.generation, vec![Ok(story(1)), Err("x".to_string())]);
    f.advance_load_target(1);
    let before = f.id_request().generation;
    let req = f.reset();
    assert!(f.stories().is_empty());
    assert_eq!(f.loaded_count(), 2);
    assert!(f.error().is_none());
    assert!(!f.is_loading_more());
    assert!(matches!(f.ids(), IdList::Pending));
    assert_eq!(req.generation, before + 1);
    assert_eq!(req.list_type, StoryListType::Best);
}

#[test]
fn answers_from_before_a_reset_are_ignored() {
    let mut f = ready_feed(vec![1, 2, 3], 2);
    let batch = f.reconcile().unwrap();
    let old_ids = f.id_request();
    let req = f.reset();
    f.complete_batch(batch.generation, vec![Ok(story(1)), Ok(story(2))]);
    assert!(f.stories().is_empty());
    f.receive_ids(old_ids.generation, Ok(vec![9]));
    assert!(matches!(f.ids(), IdList::Pending));
    f.receive_ids(req.generation, Ok(vec![4, 5]));
    f.receive_ids(req.generation, Ok(vec![6]));
    match f.ids() {
        IdList::Ready(v) => assert_eq!(v, &vec![4, 5]),
        _ => panic!("ids expected"),
    }
}

#[test]
fn id_list_failure_is_shown() {
    let mut f = FeedState::new(StoryListType::Ask, 2);
    assert_eq!(f.content(), ListContent::LoadingIds);
    let req = f.id_request();
    f.receive_ids(req.generation, Err("offline".to_string()));
    assert_eq!(f.content(), ListContent::IdsError);
    match f.ids() {
        IdList::Failed(e) => assert_eq!(e, "offline"),
        _ => panic!("failure expected"),
    }
}

#[test]
fn list_content_states() {
    let mut f = ready_feed(vec![], 2);
    assert_eq!(f.content(), ListContent::NoStories);
    let mut g = ready_feed(vec![1, 2], 2);
    assert_eq!(g.content(), ListContent::FetchingStories);
    let b = g.reconcile().unwrap();
    assert_eq!(g.content(), ListContent::Stories);
    g.complete_batch(b.generation, vec![Err("e".to_string()), Ok(story(2))]);
    assert_eq!(g.content(), ListContent::Stories);
    assert_eq!(g.error().unwrap(), "Failed to fetch/parse story: e");
    assert_eq!(g.stories().len(), 1);
    f.reset();
    assert_eq!(f.content(), ListContent::LoadingIds);
}

#[test]
fn story_error_shows_alone_only_without_stories() {
    let mut f = ready_feed(vec![1, 2, 3], 2);
    let b = f.reconcile().unwrap();
    f.complete_batch(b.generation, vec![Err("x".to_string()), Err("y".to_string())]);
    assert!(f.stories().is_empty());
    assert_eq!(f.content(), ListContent::StoryError);
    f.advance_load_target(1);
    let b = f.reconcile().unwrap();
    assert_eq!(f.content(), ListContent::Stories);
    f.complete_batch(b.generation, vec![Ok(story(1)), Ok(story(2)), Ok(story(3))]);
    assert_eq!(f.content(), ListContent::Stories);
    assert_eq!(f.error().unwrap(), "Failed to fetch/parse story: y");
}

#[test]
fn id_list_states_ignore_story_errors() {
    let mut f = ready_feed(vec![1], 1);
    let b = f.reconcile().unwrap();
    f.complete_batch(b.generation, vec![Err("z".to_string())]);
    assert_eq!(f.content(), ListContent::StoryError);
    let req = f.select_list_type(StoryListType::Job).unwrap();
    assert_eq!(f.content(), ListContent::LoadingIds);
    f.receive_ids(req.generation, Err("down".to_string()));
    assert_eq!(f.content(), ListContent::IdsError);
}

#[test]
fn selecting_a_list() {
    let mut f = ready_feed(vec![1, 2, 3], 2);
    assert!(f.select_list_type(StoryListType::Best).is_none());
    assert!(matches!(f.ids(), IdList::Ready(_)));
    let req = f.select_list_type(StoryListType::Show).unwrap();
    assert_eq!(req.list_type, StoryListType::Show);
    assert_eq!(f.list_type(), StoryListType::Show);
    assert!(matches!(f.ids(), IdList::Pending));
}

#[test]
fn scrolling_near_the_end_loads_more() {
    let ids: Vec<u32> = (1..=50).collect();
    let mut f = ready_feed(ids, BATCH_SIZE);
    // far from the end
    f.on_scroll(2000, 500, 100);
    assert_eq!(f.loaded_count(), 20);
    // content shorter than the viewport
    f.on_scroll(400, 500, 0);
    assert_eq!(f.loaded_count(), 20);
    // near the end
    f.on_scroll(2000, 500, 1400);
    assert_eq!(f.loaded_count(), 40);
    // a batch in flight blocks it
    f.reconcile().unwrap();
    assert!(!f.should_load_more(2000, 500, 1500));
    f.on_scroll(2000, 500, 1500);
    assert_eq!(f.loaded_count(), 40);
}

#[test]
fn near_bottom_values() {
    assert!(is_near_bottom(1000, 400, 500, SCROLL_END_MARGIN));
    assert!(!is_near_bottom(1000, 400, 450, SCROLL_END_MARGIN));
    assert!(is_near_bottom(1000, 400, 451, SCROLL_END_MARGIN));
    assert!(is_near_bottom(i32::MIN, i32::MAX, i32::MAX, 0));
    assert!(!is_near_bottom(i32::MAX, i32::MIN, i32::MIN, 0));
}

#[test]
fn finding_a_loaded_story() {
    let mut f = ready_feed(vec![5, 6, 7], 3);
    let b = f.reconcile().unwrap();
    f.complete_batch(b.generation, vec![Ok(story(7)), Ok(story(5))]);
    assert_eq!(f.find_story(5).unwrap().id, 5);
    assert!(f.find_story(6).is_none());
}
