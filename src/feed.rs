//! The story feed: a ranked list of story identifiers, fetched once per
//! selection, and the stories loaded from it batch by batch.

use vstd::prelude::*;
use vstd::string::StringExecFns;
use crate::api::StoryListType;
use crate::models::{copy_range, opt_view, Story};

verus! {

/// Number of stories the feed asks for at first, and again on each load-more.
pub const BATCH_SIZE: usize = 20;

/// Distance in pixels from the end of the content at which more stories are loaded.
pub const SCROLL_END_MARGIN: i32 = 150;

/// Most story fetches of one batch that may be in flight at once.
pub const STORY_FETCH_CONCURRENCY: usize = 10;

/// Prefix of the message recorded for a story that could not be fetched.
pub const STORY_FETCH_ERROR_PREFIX: &'static str = "Failed to fetch/parse story: ";

/// Where the identifier list of the current selection stands.
#[derive(Debug)]
pub enum IdList {
    Pending,
    Ready(Vec<u32>),
    Failed(String),
}

/// The model of an identifier list.
pub enum IdsView {
    Pending,
    Ready(Seq<u32>),
    Failed(Seq<char>),
}

impl View for IdList {
    type V = IdsView;

    open spec fn view(&self) -> IdsView {
        match self {
            IdList::Pending => IdsView::Pending,
            IdList::Ready(v) => IdsView::Ready(v@),
            IdList::Failed(e) => IdsView::Failed(e@),
        }
    }
}

/// A request to fetch the identifier list of `list_type`; its answer is
/// handed back with `generation`.
#[derive(Debug, Clone, Copy, PartialEq, Eq, Structural)]
pub struct IdListRequest {
    pub generation: u64,
    pub list_type: StoryListType,
}

/// A batch of stories to fetch; its results are handed back with `generation`.
#[derive(Debug)]
pub struct StoryBatch {
    pub generation: u64,
    pub ids: Vec<u32>,
}

/// What the story list shows.
#[derive(Debug, Clone, Copy, PartialEq, Eq, Structural)]
pub enum ListContent {
    /// Nothing is loaded and no batch is in flight, and a story failed to
    /// load: its message is shown.
    StoryError,
    /// The identifier list is still on its way.
    LoadingIds,
    /// The identifier list could not be fetched: its message is shown.
    IdsError,
    /// The identifier list is empty.
    NoStories,
    /// Nothing is loaded yet.
    FetchingStories,
    /// The loaded stories, with the message of the last failed story fetch
    /// beside them if there is one, and a loading line below while a batch is
    /// in flight.
    Stories,
}

/// The mathematical model of the feed.
pub struct FeedView {
    pub list_type: StoryListType,
    pub base_batch_size: nat,
    pub generation: u64,
    pub ids: IdsView,
    pub stories: Seq<Story>,
    pub loaded_count: nat,
    pub is_loading_more: bool,
    pub error: Option<Seq<char>>,
}

/// The generation after `g`, wrapping around.
pub open spec fn next_generation(g: u64) -> u64 {
    if g == u64::MAX {
        0
    } else {
        (g + 1) as u64
    }
}

/// The load target after asking for `n` more of `total` identifiers.
pub open spec fn advanced(loaded: nat, total: nat, n: nat) -> nat {
    if loaded < total {
        if loaded + n < total {
            loaded + n
        } else {
            total
        }
    } else {
        loaded
    }
}

/// The load target after asking for each of `ns` in turn.
pub open spec fn advanced_all(loaded: nat, total: nat, ns: Seq<nat>) -> nat
    decreases ns.len(),
{
    if ns.len() == 0 {
        loaded
    } else {
        advanced(advanced_all(loaded, total, ns.drop_last()), total, ns.last())
    }
}

/// Whether the visible end of the content is within `margin` of its bottom.
pub open spec fn near_bottom(content_height: int, viewport_height: int, scroll_offset: int, margin: int) -> bool {
    content_height - viewport_height - scroll_offset < margin
}

/// The stories among `results`, in order.
pub open spec fn successes(results: Seq<Result<Story, String>>) -> Seq<Story>
    decreases results.len(),
{
    if results.len() == 0 {
        Seq::empty()
    } else {
        let rest = successes(results.drop_last());
        match results.last() {
            Ok(s) => rest.push(s),
            Err(_) => rest,
        }
    }
}

/// How many of `results` are failures.
pub open spec fn failures(results: Seq<Result<Story, String>>) -> nat
    decreases results.len(),
{
    if results.len() == 0 {
        0
    } else {
        failures(results.drop_last()) + if results.last() is Err { 1nat } else { 0nat }
    }
}

/// The message recorded for the last failure among `results`, if any.
pub open spec fn last_failure(results: Seq<Result<Story, String>>) -> Option<Seq<char>>
    decreases results.len(),
{
    if results.len() == 0 {
        None
    } else {
        match results.last() {
            Err(e) => Some(STORY_FETCH_ERROR_PREFIX@ + e@),
            Ok(_) => last_failure(results.drop_last()),
        }
    }
}

impl FeedView {
    /// Number of identifiers in the list, once it is there.
    pub open spec fn total(self) -> Option<nat> {
        match self.ids {
            IdsView::Ready(ids) => Some(ids.len()),
            _ => None,
        }
    }

    /// The state right after a reset.
    pub open spec fn is_reset_of(self, old: FeedView) -> bool {
        &&& self.list_type == old.list_type
        &&& self.base_batch_size == old.base_batch_size
        &&& self.generation == next_generation(old.generation)
        &&& self.ids is Pending
        &&& self.stories == Seq::<Story>::empty()
        &&& self.loaded_count == old.base_batch_size
        &&& !self.is_loading_more
        &&& self.error is None
    }

    /// The same state with another load target.
    pub open spec fn with_loaded(self, loaded: nat) -> FeedView {
        FeedView { loaded_count: loaded, ..self }
    }

    /// The state after asking for `n` more stories: the target grows by `n`,
    /// up to the number of identifiers; without the list nothing changes.
    pub open spec fn advance(self, n: nat) -> FeedView {
        match self.total() {
            Some(t) => self.with_loaded(advanced(self.loaded_count, t, n)),
            None => self,
        }
    }

    /// Whether a batch is due: nothing in flight, the list is there, and fewer
    /// stories are loaded than both the target and the list allow.
    pub open spec fn batch_due(self) -> bool {
        &&& !self.is_loading_more
        &&& self.ids is Ready
        &&& self.stories.len() < self.loaded_count
        &&& self.stories.len() < self.ids->Ready_0.len()
    }

    /// The identifiers of the batch that is due: from the first one not loaded
    /// up to the target.
    pub open spec fn batch_ids(self) -> Seq<u32> {
        let ids = self.ids->Ready_0;
        let end = if self.loaded_count < ids.len() { self.loaded_count } else { ids.len() };
        ids.subrange(self.stories.len() as int, end as int)
    }

    /// The state after the results of the batch in flight came back.
    pub open spec fn completed(self, results: Seq<Result<Story, String>>) -> FeedView {
        FeedView {
            stories: self.stories + successes(results),
            is_loading_more: false,
            error: match last_failure(results) {
                Some(e) => Some(e),
                None => self.error,
            },
            ..self
        }
    }

    /// Whether scrolling to these extents asks for more stories.
    pub open spec fn wants_more(self, content_height: int, viewport_height: int, scroll_offset: int) -> bool {
        &&& !self.is_loading_more
        &&& content_height > viewport_height
        &&& near_bottom(content_height, viewport_height, scroll_offset, SCROLL_END_MARGIN as int)
    }

    /// What the story list shows in this state.
    pub open spec fn content(self) -> ListContent {
        match self.ids {
            IdsView::Pending => ListContent::LoadingIds,
            IdsView::Failed(_) => ListContent::IdsError,
            IdsView::Ready(ids) => if ids.len() == 0 {
                ListContent::NoStories
            } else if self.stories.len() > 0 || self.is_loading_more {
                ListContent::Stories
            } else if self.error is Some {
                ListContent::StoryError
            } else {
                ListContent::FetchingStories
            },
        }
    }
}

/// The model of an answer to an identifier-list request.
pub open spec fn ids_view_of(result: Result<Vec<u32>, String>) -> IdsView {
    match result {
        Ok(v) => IdsView::Ready(v@),
        Err(e) => IdsView::Failed(e@),
    }
}

/// Whether the visible end of the content is within `margin` pixels of its bottom.
pub fn is_near_bottom(content_height: i32, viewport_height: i32, scroll_offset: i32, margin: i32) -> (r: bool)
    ensures
        r == near_bottom(content_height as int, viewport_height as int, scroll_offset as int, margin as int),
{
    (content_height as i64) - (viewport_height as i64) - (scroll_offset as i64) < margin as i64
}

/// The state of the story feed for one selected list.
pub struct FeedState {
    list_type: StoryListType,
    base_batch_size: usize,
    generation: u64,
    ids: IdList,
    stories: Vec<Story>,
    loaded_count: usize,
    is_loading_more: bool,
    error: Option<String>,
}

impl View for FeedState {
    type V = FeedView;

    closed spec fn view(&self) -> FeedView {
        FeedView {
            list_type: self.list_type,
            base_batch_size: self.base_batch_size as nat,
            generation: self.generation,
            ids: self.ids@,
            stories: self.stories@,
            loaded_count: self.loaded_count as nat,
            is_loading_more: self.is_loading_more,
            error: opt_view(self.error),
        }
    }
}


impl FeedState {
    /// A feed for `list_type` whose identifier list is still to be fetched
    /// (see `id_request`), with a load target of `base_batch_size`.
    pub fn new(list_type: StoryListType, base_batch_size: usize) -> (r: FeedState)
        ensures
            r@.list_type == list_type,
            r@.base_batch_size == base_batch_size,
            r@.generation == 0,
            (r@.ids is Pending),
            r@.stories == Seq::<Story>::empty(),
            r@.loaded_count == base_batch_size,
            !r@.is_loading_more,
            (r@.error is None),
    {
        FeedState {
            list_type,
            base_batch_size,
            generation: 0,
            ids: IdList::Pending,
            stories: Vec::new(),
            loaded_count: base_batch_size,
            is_loading_more: false,
            error: None,
        }
    }

    /// The fetch of the identifier list that the current state waits for.
    pub fn id_request(&self) -> (r: IdListRequest)
        ensures
            r.generation == self@.generation,
            r.list_type == self@.list_type,
    {
        IdListRequest { generation: self.generation, list_type: self.list_type }
    }

    /// Starts the current list over: no stories, the base load target, no
    /// error, and one new fetch of the identifier list, which is returned.
    /// Answers to earlier requests and batches are ignored from now on.
    pub fn reset(&mut self) -> (r: IdListRequest)
        ensures
            final(self)@.is_reset_of(old(self)@),
            r.generation == final(self)@.generation,
            r.list_type == final(self)@.list_type,
    {
        self.generation = if self.generation == u64::MAX {
            0
        } else {
            self.generation + 1
        };
        self.ids = IdList::Pending;
        self.stories = Vec::new();
        self.loaded_count = self.base_batch_size;
        self.is_loading_more = false;
        self.error = None;
        IdListRequest { generation: self.generation, list_type: self.list_type }
    }

    /// Switches to another list and starts it over; selecting the current list
    /// changes nothing.
    pub fn select_list_type(&mut self, list_type: StoryListType) -> (r: Option<IdListRequest>)
        ensures
            list_type == old(self)@.list_type ==> final(self)@ == old(self)@ && (r is None),
            list_type != old(self)@.list_type ==> {
                &&& final(self)@.is_reset_of((FeedView { list_type, ..old(self)@ }))
                &&& r == Some((IdListRequest { generation: final(self)@.generation, list_type }))
            },
    {
        if list_type == self.list_type {
            None
        } else {
            self.list_type = list_type;
            Some(self.reset())
        }
    }

    /// Takes the answer to the identifier-list request of `generation`; an
    /// answer to an older request, or a second answer, is ignored.
    pub fn receive_ids(&mut self, generation: u64, result: Result<Vec<u32>, String>)
        ensures
            (generation == old(self)@.generation && (old(self)@.ids is Pending))
                ==> final(self)@ == (FeedView { ids: ids_view_of(result), ..old(self)@ }),
            !(generation == old(self)@.generation && (old(self)@.ids is Pending)) ==> final(self)@ == old(self)@,
    {
        if generation == self.generation {
            if let IdList::Pending = self.ids {
                self.ids = match result {
                    Ok(v) => IdList::Ready(v),
                    Err(e) => IdList::Failed(e),
                };
            }
        }
    }

    /// Raises the load target by `n`, but not past the number of identifiers;
    /// without the identifier list, or at or past that number, nothing changes.
    pub fn advance_load_target(&mut self, n: usize)
        ensures
            final(self)@ == old(self)@.advance(n as nat),
            final(self)@.loaded_count >= old(self)@.loaded_count,
            (old(self)@.total() is Some) && old(self)@.loaded_count <= old(self)@.total()->Some_0
                ==> final(self)@.loaded_count <= old(self)@.total()->Some_0,
    {
        if let IdList::Ready(ids) = &self.ids {
            let total = ids.len();
            if self.loaded_count < total {
                let room = total - self.loaded_count;
                self.loaded_count = if n < room {
                    self.loaded_count + n
                } else {
                    total
                };
            }
        }
    }

    /// Whether scrolling to these extents should load more stories: no batch in
    /// flight, the content is taller than the viewport, and its end is near.
    pub fn should_load_more(&self, content_height: i32, viewport_height: i32, scroll_offset: i32) -> (r: bool)
        ensures
            r == self@.wants_more(content_height as int, viewport_height as int, scroll_offset as int),
    {
        !self.is_loading_more && content_height > viewport_height && is_near_bottom(
            content_height,
            viewport_height,
            scroll_offset,
            SCROLL_END_MARGIN,
        )
    }

    /// Reacts to a scroll: where more stories are wanted, raises the load
    /// target by the base batch size.
    pub fn on_scroll(&mut self, content_height: i32, viewport_height: i32, scroll_offset: i32)
        ensures
            old(self)@.wants_more(content_height as int, viewport_height as int, scroll_offset as int)
                ==> final(self)@ == old(self)@.advance(old(self)@.base_batch_size),
            !old(self)@.wants_more(content_height as int, viewport_height as int, scroll_offset as int)
                ==> final(self)@ == old(self)@,
    {
        if self.should_load_more(content_height, viewport_height, scroll_offset) {
            let n = self.base_batch_size;
            self.advance_load_target(n);
        }
    }

    /// Issues the batch that is due, if any, and marks it in flight. While a
    /// batch is in flight this does nothing.
    pub fn reconcile(&mut self) -> (r: Option<StoryBatch>)
        ensures
            old(self)@.batch_due() ==> {
                &&& final(self)@ == (FeedView { is_loading_more: true, ..old(self)@ })
                &&& (r matches Some(b) && b.generation == old(self)@.generation && b.ids@ == old(self)@.batch_ids())
            },
            !old(self)@.batch_due() ==> final(self)@ == old(self)@ && (r is None),
            old(self)@.is_loading_more ==> final(self)@ == old(self)@ && (r is None),
    {
        if self.is_loading_more {
            return None;
        }
        let batch = match &self.ids {
            IdList::Ready(ids) => {
                let done = self.stories.len();
                if done < self.loaded_count && done < ids.len() {
                    let end = if self.loaded_count < ids.len() {
                        self.loaded_count
                    } else {
                        ids.len()
                    };
                    Some(StoryBatch { generation: self.generation, ids: copy_range(ids, done, end) })
                } else {
                    None
                }
            },
            _ => None,
        };
        if batch.is_some() {
            self.is_loading_more = true;
        }
        batch
    }

    /// Takes the results of the batch of `generation`, in the order they
    /// arrived: the stories are appended in that order, the last failure, if
    /// any, becomes the error, and the batch is no longer in flight. Results of
    /// a batch from before a reset, or when none is in flight, are ignored.
    pub fn complete_batch(&mut self, generation: u64, results: Vec<Result<Story, String>>)
        ensures
            generation == old(self)@.generation && old(self)@.is_loading_more
                ==> final(self)@ == old(self)@.completed(results@),
            !(generation == old(self)@.generation && old(self)@.is_loading_more) ==> final(self)@ == old(self)@,
    {
        if generation != self.generation || !self.is_loading_more {
            return ;
        }
        let ghost rs = results@;
        let ghost old_view = self@;
        let mut rest = results;
        let ghost mut k: int = 0;
        while rest.len() > 0
            invariant
                0 <= k <= rs.len(),
                rs.len() == k + rest.len(),
                rest@ == rs.subrange(k, rs.len() as int),
                self@ == (FeedView { is_loading_more: true, ..old_view.completed(rs.take(k)) }),
            decreases rest.len(),
        {
            let r = rest.remove(0);
            proof {
                assert(rs.take(k + 1).drop_last() =~= rs.take(k));
                assert(rs.take(k + 1).last() == r);
            }
            match r {
                Ok(story) => {
                    self.stories.push(story);
                    assert(self.stories@ =~= old_view.stories + successes(rs.take(k + 1)));
                },
                Err(e) => {
                    let mut msg = String::from_str(STORY_FETCH_ERROR_PREFIX);
                    msg.append(e.as_str());
                    self.error = Some(msg);
                },
            }
            proof {
                k = k + 1;
            }
            assert(rest@ =~= rs.subrange(k, rs.len() as int));
        }
        assert(rs.take(k) =~= rs);
        self.is_loading_more = false;
    }

    /// What the story list shows.
    pub fn content(&self) -> (r: ListContent)
        ensures
            r == self@.content(),
    {
        match &self.ids {
            IdList::Pending => ListContent::LoadingIds,
            IdList::Failed(_) => ListContent::IdsError,
            IdList::Ready(ids) => if ids.len() == 0 {
                ListContent::NoStories
            } else if self.stories.len() > 0 || self.is_loading_more {
                ListContent::Stories
            } else if self.error.is_some() {
                ListContent::StoryError
            } else {
                ListContent::FetchingStories
            },
        }
    }

    /// The loaded stories, in the order they were appended.
    pub fn stories(&self) -> (r: &Vec<Story>)
        ensures
            r@ == self@.stories,
    {
        &self.stories
    }

    /// How many identifiers have been asked for so far.
    pub fn loaded_count(&self) -> (r: usize)
        ensures
            r == self@.loaded_count,
    {
        self.loaded_count
    }

    /// Whether a batch is in flight.
    pub fn is_loading_more(&self) -> (r: bool)
        ensures
            r == self@.is_loading_more,
    {
        self.is_loading_more
    }

    /// The message of the most recent failed story fetch.
    pub fn error(&self) -> (r: Option<&String>)
        ensures
            match r {
                Some(e) => self@.error == Some(e@),
                None => (self@.error is None),
            },
    {
        match &self.error {
            Some(e) => Some(e),
            None => None,
        }
    }

    /// Where the identifier list stands.
    pub fn ids(&self) -> (r: &IdList)
        ensures
            r@ == self@.ids,
    {
        &self.ids
    }

    /// The first loaded story with this identifier, if any.
    pub fn find_story(&self, id: u32) -> (r: Option<&Story>)
        ensures
            match r {
                Some(s) => exists|i: int|
                    0 <= i < self@.stories.len() && self@.stories[i] == *s && s.id == id
                        && forall|j: int| 0 <= j < i ==> (#[trigger] self@.stories[j]).id != id,
                None => forall|i: int| 0 <= i < self@.stories.len() ==> (#[trigger] self@.stories[i]).id != id,
            },
    {
        let mut i: usize = 0;
        while i < self.stories.len()
            invariant
                0 <= i <= self.stories.len(),
                forall|j: int| 0 <= j < i ==> (#[trigger] self.stories@[j]).id != id,
            decreases self.stories.len() - i,
        {
            if self.stories[i].id == id {
                return Some(&self.stories[i]);
            }
            i = i + 1;
        }
        None
    }

    /// The selected list.
    pub fn list_type(&self) -> (r: StoryListType)
        ensures
            r == self@.list_type,
    {
        self.list_type
    }
}


/// However many times more stories are asked for, the load target never
/// decreases, and from within the identifier list it never passes its end.
pub proof fn lemma_load_target_monotonic(loaded: nat, total: nat, ns: Seq<nat>)
    ensures
        advanced_all(loaded, total, ns) >= loaded,
        loaded <= total ==> advanced_all(loaded, total, ns) <= total,
    decreases ns.len(),
{
    if ns.len() > 0 {
        lemma_load_target_monotonic(loaded, total, ns.drop_last());
    }
}

/// Each result of a batch is either a story or a failure.
pub proof fn lemma_successes_and_failures(results: Seq<Result<Story, String>>)
    ensures
        successes(results).len() + failures(results) == results.len(),
    decreases results.len(),
{
    if results.len() > 0 {
        lemma_successes_and_failures(results.drop_last());
    }
}

/// A batch of `k` identifiers of which `m` fail to load appends exactly
/// `k - m` stories behind those already loaded, and leaves no batch in flight.
pub proof fn lemma_batch_completeness(v: FeedView, results: Seq<Result<Story, String>>)
    requires
        v.batch_due(),
        results.len() == v.batch_ids().len(),
    ensures
        ({
            let after = (FeedView { is_loading_more: true, ..v }).completed(results);
            &&& after.stories.len() == v.stories.len() + v.batch_ids().len() - failures(results)
            &&& after.stories.subrange(0, v.stories.len() as int) == v.stories
            &&& !after.is_loading_more
        }),
{
    lemma_successes_and_failures(results);
    let after = (FeedView { is_loading_more: true, ..v }).completed(results);
    assert(after.stories.subrange(0, v.stories.len() as int) =~= v.stories);
}

} // verus!
