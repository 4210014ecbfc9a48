//! Core logic of a Hacker News reader: the paginated story feed, the lazily
//! expanded comment forest, and the small pure helpers the views rely on.

mod api;
mod comments;
mod datetime;
mod feed;
mod models;
mod text;
mod theme;

pub use api::{decimal, decimal_string, digit_seq, get_story_list_url, hn_item_url, StoryListType, HN_API_BASE_URL};
pub use comments::{
    comment_ids, completed, fetch_succeeded, fetched, forest_wf, fresh, lemma_expand_cache, lemma_toggle_retry,
    register_all, rows_of, rows_of_one, toggle_fetches, toggle_in, toggled, with_state, CommentForest, CommentNode,
    NodeView, ToggleOutcome, MAX_REPLY_DEPTH,
};
pub use datetime::{age, age_of, age_text, age_text_of, format_timestamp, in_timestamp_range, Age};
pub use feed::{
    advanced, advanced_all, failures, ids_view_of, is_near_bottom, last_failure, lemma_batch_completeness,
    lemma_load_target_monotonic, lemma_successes_and_failures, near_bottom, next_generation, successes, FeedState,
    FeedView, IdList, IdListRequest, IdsView, ListContent, StoryBatch, BATCH_SIZE, SCROLL_END_MARGIN,
    STORY_FETCH_CONCURRENCY, STORY_FETCH_ERROR_PREFIX,
};
pub use models::{kid_ids, opt_view, Comment, FetchState, Story};
pub use text::{
    comment_display_text, display_text_from, display_text_of, html_plain_text, indentation, toggle_label,
    toggle_label_of, COMMENT_WRAP_WIDTH, INDENTATION_SIZE,
};
pub use theme::{ColorTheme, FontTheme, FontWeightTheme, SizeTheme, Theme, ThemeMode};
