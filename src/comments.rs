//! The comment forest: every fetched comment keyed by its identifier, each
//! with its own expand and fetch state.

use std::collections::HashMap;
use vstd::prelude::*;
use crate::models::{kid_ids, Comment, FetchState};

verus! {

broadcast use vstd::std_specs::hash::group_hash_axioms;

/// A fetched comment and the state that the reader attaches to it.
#[derive(Debug)]
pub struct CommentNode {
    pub comment: Comment,
    /// Whether the replies are shown.
    pub is_expanded: bool,
    /// Status of the most recent attempt to fetch the replies.
    pub fetch_state: FetchState,
    /// Identifiers of the fetched replies, in the order the comment lists them;
    /// each of them is a node of the same forest.
    pub children: Vec<u32>,
}

/// The mathematical model of a node.
pub struct NodeView {
    pub comment: Comment,
    pub is_expanded: bool,
    pub fetch_state: FetchState,
    pub children: Seq<u32>,
}

impl View for CommentNode {
    type V = NodeView;

    open spec fn view(&self) -> NodeView {
        NodeView {
            comment: self.comment,
            is_expanded: self.is_expanded,
            fetch_state: self.fetch_state,
            children: self.children@,
        }
    }
}

/// What the caller has to do after a toggle.
#[derive(Debug)]
pub enum ToggleOutcome {
    /// The node is unknown, or its replies are being fetched.
    Ignored,
    /// The node was collapsed; its fetched replies stay cached.
    Collapsed,
    /// The node was expanded and shows what is already there.
    Expanded,
    /// The node was expanded and its replies, with these identifiers, must be fetched.
    Fetch(Vec<u32>),
}

/// A node for a freshly fetched comment: collapsed, idle, nothing fetched below it.
pub open spec fn fresh(c: Comment) -> NodeView {
    NodeView { comment: c, is_expanded: false, fetch_state: FetchState::Idle, children: Seq::empty() }
}

/// The same node with other expand and fetch state.
pub open spec fn with_state(n: NodeView, expanded: bool, state: FetchState) -> NodeView {
    NodeView { comment: n.comment, is_expanded: expanded, fetch_state: state, children: n.children }
}

/// Whether a toggle of `n` starts a fetch of its replies: the last fetch failed,
/// or it is collapsed and idle with replies listed and none fetched.
pub open spec fn toggle_fetches(n: NodeView) -> bool {
    n.fetch_state == FetchState::Failed || (n.fetch_state == FetchState::Idle && !n.is_expanded
        && n.children.len() == 0 && kid_ids(n.comment).len() > 0)
}

/// The node after a toggle.
pub open spec fn toggled(n: NodeView) -> NodeView {
    if n.fetch_state == FetchState::Loading {
        n
    } else if toggle_fetches(n) {
        with_state(n, true, FetchState::Loading)
    } else {
        with_state(n, !n.is_expanded, n.fetch_state)
    }
}

/// `m` with a fresh node for each of `cs`, later ones winning on equal identifiers.
pub open spec fn register_all(m: Map<u32, NodeView>, cs: Seq<Comment>) -> Map<u32, NodeView>
    decreases cs.len(),
{
    if cs.len() == 0 {
        m
    } else {
        register_all(m, cs.drop_last()).insert(cs.last().id, fresh(cs.last()))
    }
}

/// Whether a fetch of the replies `kids` succeeded: one result per reply, none failed.
pub open spec fn fetch_succeeded(kids: Seq<u32>, results: Seq<Option<Comment>>) -> bool {
    results.len() == kids.len() && forall|i: int| 0 <= i < results.len() ==> (#[trigger] results[i]) is Some
}

/// The comments of a successful fetch.
pub open spec fn fetched(results: Seq<Option<Comment>>) -> Seq<Comment> {
    results.map_values(|r: Option<Comment>| r->Some_0)
}

/// The identifiers of `cs`, in order.
pub open spec fn comment_ids(cs: Seq<Comment>) -> Seq<u32> {
    cs.map_values(|c: Comment| c.id)
}

/// The forest after the replies of node `id` came back as `results`: on success
/// each reply becomes a fresh node and the node lists them, in order; on failure
/// the node is marked failed and nothing else changes.
pub open spec fn completed(m: Map<u32, NodeView>, id: u32, results: Seq<Option<Comment>>) -> Map<u32, NodeView> {
    let n = m[id];
    if fetch_succeeded(kid_ids(n.comment), results) {
        let cs = fetched(results);
        register_all(m.remove(id), cs).insert(
            id,
            NodeView {
                comment: n.comment,
                is_expanded: n.is_expanded,
                fetch_state: FetchState::Idle,
                children: comment_ids(cs),
            },
        )
    } else {
        m.insert(id, with_state(n, n.is_expanded, FetchState::Failed))
    }
}

/// Deepest reply level that is listed; it bounds the walk even where the
/// forest holds a cycle.
pub const MAX_REPLY_DEPTH: u16 = 512;

/// Rows shown for the comments `ids` at reply depth `depth`: each known one,
/// followed by the rows of its replies where it is expanded and idle and the
/// depth is below `MAX_REPLY_DEPTH`.
pub open spec fn rows_of(m: Map<u32, NodeView>, ids: Seq<u32>, depth: nat) -> Seq<(u32, u16)>
    decreases MAX_REPLY_DEPTH - depth, ids.len(), 1nat,
{
    if ids.len() == 0 {
        Seq::empty()
    } else {
        rows_of(m, ids.drop_last(), depth) + rows_of_one(m, ids.last(), depth)
    }
}

/// Rows shown for the comment `id` at reply depth `depth`.
pub open spec fn rows_of_one(m: Map<u32, NodeView>, id: u32, depth: nat) -> Seq<(u32, u16)>
    decreases MAX_REPLY_DEPTH - depth, 0nat, 0nat,
{
    if !m.contains_key(id) || depth > MAX_REPLY_DEPTH {
        Seq::empty()
    } else if m[id].is_expanded && m[id].fetch_state == FetchState::Idle && depth < MAX_REPLY_DEPTH {
        seq![(id, depth as u16)] + rows_of(m, m[id].children, depth + 1)
    } else {
        seq![(id, depth as u16)]
    }
}

/// The forest's invariant: only an idle node has fetched replies, and each
/// fetched reply is itself a node of the forest.
pub open spec fn forest_wf(m: Map<u32, NodeView>) -> bool {
    forall|id: u32| #[trigger] m.contains_key(id) ==> {
        &&& m[id].children.len() > 0 ==> m[id].fetch_state == FetchState::Idle
        &&& forall|i: int| 0 <= i < m[id].children.len() ==> m.contains_key(#[trigger] m[id].children[i])
    }
}

proof fn lemma_register_all(m: Map<u32, NodeView>, cs: Seq<Comment>)
    ensures
        forall|k: u32| m.contains_key(k) ==> #[trigger] register_all(m, cs).contains_key(k),
        forall|i: int| 0 <= i < cs.len() ==> register_all(m, cs).contains_key(#[trigger] cs[i].id),
        forall|k: u32| #[trigger] register_all(m, cs).contains_key(k) ==> {
            ||| m.contains_key(k) && register_all(m, cs)[k] == m[k]
            ||| register_all(m, cs)[k].children.len() == 0 && register_all(m, cs)[k].fetch_state == FetchState::Idle
        },
    decreases cs.len(),
{
    if cs.len() > 0 {
        lemma_register_all(m, cs.drop_last());
        assert forall|i: int| 0 <= i < cs.len() implies register_all(m, cs).contains_key(#[trigger] cs[i].id) by {
            if i < cs.len() - 1 {
                assert(cs.drop_last()[i] == cs[i]);
            }
        }
    }
}

/// The model of a map of nodes.
pub open spec fn nodes_view(m: Map<u32, CommentNode>) -> Map<u32, NodeView> {
    m.map_values(|n: CommentNode| n@)
}

proof fn lemma_nodes_view_insert(m: Map<u32, CommentNode>, k: u32, n: CommentNode)
    ensures
        nodes_view(m.insert(k, n)) == nodes_view(m).insert(k, n@),
{
    assert(nodes_view(m.insert(k, n)) =~= nodes_view(m).insert(k, n@));
}

proof fn lemma_nodes_view_remove(m: Map<u32, CommentNode>, k: u32)
    ensures
        nodes_view(m.remove(k)) == nodes_view(m).remove(k),
{
    assert(nodes_view(m.remove(k)) =~= nodes_view(m).remove(k));
}

/// Every comment fetched for one story, with the reader's state of each.
pub struct CommentForest {
    nodes: HashMap<u32, CommentNode>,
}

impl View for CommentForest {
    type V = Map<u32, NodeView>;

    closed spec fn view(&self) -> Map<u32, NodeView> {
        nodes_view(self.nodes@)
    }
}

impl CommentForest {
    /// An empty forest.
    pub fn new() -> (r: CommentForest)
        ensures
            r@ == Map::<u32, NodeView>::empty(),
            forest_wf(r@),
    {
        let r = CommentForest { nodes: HashMap::new() };
        assert(r@ =~= Map::<u32, NodeView>::empty());
        r
    }

    /// Adds a fetched comment as a fresh node, replacing any node with its identifier.
    pub fn insert_fetched(&mut self, comment: Comment)
        ensures
            final(self)@ == old(self)@.insert(comment.id, fresh(comment)),
            forest_wf(old(self)@) ==> forest_wf(final(self)@),
    {
        let id = comment.id;
        let node = CommentNode { comment, is_expanded: false, fetch_state: FetchState::Idle, children: Vec::new() };
        proof {
            lemma_nodes_view_insert(self.nodes@, id, node);
        }
        self.nodes.insert(id, node);
        assert(node@ == fresh(comment));
    }

    /// Whether the forest holds a node with this identifier.
    pub fn contains(&self, id: u32) -> (r: bool)
        ensures
            r == self@.contains_key(id),
    {
        self.nodes.contains_key(&id)
    }

    /// The node with this identifier, if any.
    pub fn get(&self, id: u32) -> (r: Option<&CommentNode>)
        ensures
            match r {
                Some(n) => self@.contains_key(id) && n@ == self@[id],
                None => !self@.contains_key(id),
            },
    {
        self.nodes.get(&id)
    }

    fn push_rows(&self, ids: &Vec<u32>, depth: u16, out: &mut Vec<(u32, u16)>)
        requires
            depth <= MAX_REPLY_DEPTH,
        ensures
            final(out)@ == old(out)@ + rows_of(self@, ids@, depth as nat),
        decreases MAX_REPLY_DEPTH - depth, ids@.len(), 1nat,
    {
        let ghost start = out@;
        let mut i: usize = 0;
        while i < ids.len()
            invariant
                0 <= i <= ids.len(),
                depth <= MAX_REPLY_DEPTH,
                out@ == start + rows_of(self@, ids@.take(i as int), depth as nat),
            decreases ids.len() - i,
        {
            proof {
                assert(ids@.take(i + 1).drop_last() =~= ids@.take(i as int));
                assert(ids@.take(i + 1).last() == ids@[i as int]);
            }
            self.push_rows_of_one(ids[i], depth, out);
            i = i + 1;
            assert(out@ =~= start + rows_of(self@, ids@.take(i as int), depth as nat));
        }
        assert(ids@.take(i as int) =~= ids@);
    }

    fn push_rows_of_one(&self, id: u32, depth: u16, out: &mut Vec<(u32, u16)>)
        requires
            depth <= MAX_REPLY_DEPTH,
        ensures
            final(out)@ == old(out)@ + rows_of_one(self@, id, depth as nat),
        decreases MAX_REPLY_DEPTH - depth, 0nat, 0nat,
    {
        match self.nodes.get(&id) {
            None => {
                assert(old(out)@ + rows_of_one(self@, id, depth as nat) =~= old(out)@);
            },
            Some(node) => {
                out.push((id, depth));
                if node.is_expanded && node.fetch_state == FetchState::Idle && depth < MAX_REPLY_DEPTH {
                    self.push_rows(&node.children, depth + 1, out);
                    assert(final(out)@ =~= old(out)@ + rows_of_one(self@, id, depth as nat));
                } else {
                    assert(out@ =~= old(out)@ + rows_of_one(self@, id, depth as nat));
                }
            },
        }
    }

    /// The comments to show under a story whose top-level replies are `roots`,
    /// depth first, each with its reply depth: every known comment appears,
    /// followed by the rows of its replies where it is expanded and idle.
    /// Replies are listed down to reply depth `MAX_REPLY_DEPTH` and no deeper:
    /// a comment at that depth is shown without its replies. The bound is what
    /// ends the walk where the forest holds a cycle.
    pub fn visible_rows(&self, roots: &Vec<u32>) -> (r: Vec<(u32, u16)>)
        ensures
            r@ == rows_of(self@, roots@, 0),
    {
        let mut out: Vec<(u32, u16)> = Vec::new();
        self.push_rows(roots, 0, &mut out);
        assert(out@ =~= rows_of(self@, roots@, 0));
        out
    }

    /// The single entry point of a node's expand control. A collapsed node is
    /// expanded, fetching its replies if none were fetched yet; an expanded idle
    /// node is collapsed, keeping what was fetched; a failed node is expanded and
    /// fetched again; a node whose replies are loading, or an unknown one, is left
    /// alone.
    pub fn toggle_or_retry(&mut self, id: u32) -> (r: ToggleOutcome)
        ensures
            !old(self)@.contains_key(id) ==> final(self)@ == old(self)@ && (r is Ignored),
            old(self)@.contains_key(id) ==> {
                let n = old(self)@[id];
                &&& final(self)@ == old(self)@.insert(id, toggled(n))
                &&& n.fetch_state == FetchState::Loading ==> (r is Ignored)
                &&& n.fetch_state != FetchState::Loading && toggle_fetches(n) ==> (r matches ToggleOutcome::Fetch(ids) && ids@ == kid_ids(n.comment))
                &&& n.fetch_state != FetchState::Loading && !toggle_fetches(n) && n.is_expanded ==> (r is Collapsed)
                &&& n.fetch_state != FetchState::Loading && !toggle_fetches(n) && !n.is_expanded ==> (r is Expanded)
            },
            forest_wf(old(self)@) ==> forest_wf(final(self)@),
    {
        let ghost old_nodes = self.nodes@;
        match self.nodes.remove(&id) {
            None => {
                assert(self.nodes@ =~= old_nodes);
                ToggleOutcome::Ignored
            },
            Some(mut node) => {
                proof {
                    lemma_nodes_view_remove(old_nodes, id);
                }
                let ghost n = node@;
                let outcome;
                if node.fetch_state == FetchState::Loading {
                    outcome = ToggleOutcome::Ignored;
                } else if node.fetch_state == FetchState::Failed || (!node.is_expanded
                    && node.children.len() == 0 && node.comment.has_kids()) {
                    node.is_expanded = true;
                    node.fetch_state = FetchState::Loading;
                    outcome = ToggleOutcome::Fetch(node.comment.kid_list());
                } else if node.is_expanded {
                    node.is_expanded = false;
                    outcome = ToggleOutcome::Collapsed;
                } else {
                    node.is_expanded = true;
                    outcome = ToggleOutcome::Expanded;
                }
                assert(node@ == toggled(n));
                proof {
                    lemma_nodes_view_insert(old_nodes.remove(id), id, node);
                }
                self.nodes.insert(id, node);
                assert(nodes_view(old_nodes).remove(id).insert(id, toggled(n)) =~= nodes_view(old_nodes).insert(id, toggled(n)));
                proof {
                    let m = nodes_view(old_nodes);
                    if forest_wf(m) {
                        assert forall|k: u32| #[trigger] self@.contains_key(k) implies {
                            &&& self@[k].children.len() > 0 ==> self@[k].fetch_state == FetchState::Idle
                            &&& forall|i: int| 0 <= i < self@[k].children.len() ==> self@.contains_key(#[trigger] self@[k].children[i])
                        } by {
                            assert(m.contains_key(k));
                        }
                    }
                }
                outcome
            },
        }
    }

    /// Records the outcome of fetching the replies of node `id`, one result per
    /// listed reply in the order the comment lists them (`None` for a failed
    /// fetch). Applies only while the node is loading: on success the replies
    /// become fresh nodes of the forest and the node lists them and turns idle;
    /// if any failed, or the count differs, the node turns failed with no replies.
    pub fn complete_fetch(&mut self, id: u32, results: Vec<Option<Comment>>)
        ensures
            old(self)@.contains_key(id) && old(self)@[id].fetch_state == FetchState::Loading
                ==> final(self)@ == completed(old(self)@, id, results@),
            !(old(self)@.contains_key(id) && old(self)@[id].fetch_state == FetchState::Loading)
                ==> final(self)@ == old(self)@,
            forest_wf(old(self)@) ==> forest_wf(final(self)@),
    {
        let ghost old_nodes = self.nodes@;
        let ghost rs = results@;
        match self.nodes.remove(&id) {
            None => {
                assert(self.nodes@ =~= old_nodes);
            },
            Some(mut node) => {
                proof {
                    lemma_nodes_view_remove(old_nodes, id);
                }
                let ghost n = node@;
                if node.fetch_state != FetchState::Loading {
                    proof {
                        lemma_nodes_view_insert(old_nodes.remove(id), id, node);
                    }
                    self.nodes.insert(id, node);
                    assert(self.nodes@ =~= old_nodes);
                    return ;
                }
                let kids_len: usize = match &node.comment.kids {
                    Some(k) => k.len(),
                    None => 0,
                };
                let mut all_some = true;
                let mut i: usize = 0;
                while i < results.len()
                    invariant
                        0 <= i <= results.len(),
                        results@ == rs,
                        all_some == (forall|j: int| 0 <= j < i ==> (#[trigger] rs[j]) is Some),
                    decreases results.len() - i,
                {
                    match &results[i] {
                        None => {
                            all_some = false;
                        },
                        Some(_) => {},
                    }
                    i = i + 1;
                }
                if all_some && results.len() == kids_len {
                    assert(fetch_succeeded(kid_ids(n.comment), rs));
                    let ghost cs = fetched(rs);
                    let mut rest = results;
                    let mut children: Vec<u32> = Vec::new();
                    let ghost mut k: int = 0;
                    while rest.len() > 0
                        invariant
                            0 <= k <= rs.len(),
                            rs.len() == k + rest.len(),
                            rest@ == rs.subrange(k, rs.len() as int),
                            forall|j: int| 0 <= j < rs.len() ==> (#[trigger] rs[j]) is Some,
                            cs == fetched(rs),
                            nodes_view(self.nodes@) == register_all(nodes_view(old_nodes).remove(id), cs.take(k)),
                            children@ == comment_ids(cs.take(k)),
                        decreases rest.len(),
                    {
                        let r = rest.remove(0);
                        assert(r == rs[k]);
                        match r {
                            Some(c) => {
                                let cid = c.id;
                                children.push(cid);
                                let child = CommentNode {
                                    comment: c,
                                    is_expanded: false,
                                    fetch_state: FetchState::Idle,
                                    children: Vec::new(),
                                };
                                proof {
                                    lemma_nodes_view_insert(self.nodes@, cid, child);
                                    assert(cs.take(k + 1).drop_last() =~= cs.take(k));
                                    assert(cs.take(k + 1).last() == c);
                                    assert(child@ == fresh(c));
                                    assert(comment_ids(cs.take(k + 1)) =~= comment_ids(cs.take(k)).push(cid));
                                }
                                self.nodes.insert(cid, child);
                            },
                            None => {},
                        }
                        proof {
                            k = k + 1;
                        }
                        assert(rest@ =~= rs.subrange(k, rs.len() as int));
                    }
                    assert(cs.take(k) =~= cs);
                    node.fetch_state = FetchState::Idle;
                    node.children = children;
                    proof {
                        lemma_nodes_view_insert(self.nodes@, id, node);
                    }
                    self.nodes.insert(id, node);
                    proof {
                        let m = nodes_view(old_nodes);
                        let reg = register_all(m.remove(id), cs);
                        lemma_register_all(m.remove(id), cs);
                        assert(self@ == reg.insert(id, node@));
                        if forest_wf(m) {
                            assert forall|k: u32| #[trigger] self@.contains_key(k) implies {
                                &&& self@[k].children.len() > 0 ==> self@[k].fetch_state == FetchState::Idle
                                &&& forall|i: int| 0 <= i < self@[k].children.len() ==> self@.contains_key(#[trigger] self@[k].children[i])
                            } by {
                                if k == id {
                                    assert forall|i: int| 0 <= i < self@[k].children.len() implies self@.contains_key(#[trigger] self@[k].children[i]) by {
                                        assert(self@[k].children[i] == cs[i].id);
                                        assert(reg.contains_key(cs[i].id));
                                    }
                                } else {
                                    assert(reg.contains_key(k));
                                    if m.remove(id).contains_key(k) && reg[k] == m.remove(id)[k] {
                                        assert(m.contains_key(k));
                                        assert forall|i: int| 0 <= i < self@[k].children.len() implies self@.contains_key(#[trigger] self@[k].children[i]) by {
                                            let c = m[k].children[i];
                                            assert(m.contains_key(c));
                                            if c != id {
                                                assert(m.remove(id).contains_key(c));
                                            }
                                        }
                                    }
                                }
                            }
                        }
                    }
                } else {
                    assert(!fetch_succeeded(kid_ids(n.comment), rs));
                    node.fetch_state = FetchState::Failed;
                    proof {
                        lemma_nodes_view_insert(old_nodes.remove(id), id, node);
                    }
                    self.nodes.insert(id, node);
                    assert(nodes_view(old_nodes).remove(id).insert(id, node@) =~= nodes_view(old_nodes).insert(id, node@));
                    proof {
                        let m = nodes_view(old_nodes);
                        if forest_wf(m) {
                            assert forall|k: u32| #[trigger] self@.contains_key(k) implies {
                                &&& self@[k].children.len() > 0 ==> self@[k].fetch_state == FetchState::Idle
                                &&& forall|i: int| 0 <= i < self@[k].children.len() ==> self@.contains_key(#[trigger] self@[k].children[i])
                            } by {
                                assert(m.contains_key(k));
                            }
                        }
                    }
                }
            },
        }
    }
}


/// The forest after a toggle of node `id`.
pub open spec fn toggle_in(m: Map<u32, NodeView>, id: u32) -> Map<u32, NodeView> {
    if m.contains_key(id) {
        m.insert(id, toggled(m[id]))
    } else {
        m
    }
}

/// Once a collapsed node's replies were fetched on expansion, collapsing and
/// expanding it again starts no fetch and shows the same replies.
pub proof fn lemma_expand_cache(m: Map<u32, NodeView>, id: u32, results: Seq<Option<Comment>>)
    requires
        m.contains_key(id),
        m[id].fetch_state == FetchState::Idle,
        !m[id].is_expanded,
        m[id].children.len() == 0,
        kid_ids(m[id].comment).len() > 0,
        fetch_succeeded(kid_ids(m[id].comment), results),
    ensures
        toggle_fetches(m[id]),
        ({
            let loaded = completed(toggle_in(m, id), id, results);
            let collapsed = toggle_in(loaded, id);
            &&& loaded[id].is_expanded
            &&& loaded[id].fetch_state == FetchState::Idle
            &&& loaded[id].children == comment_ids(fetched(results))
            &&& !toggle_fetches(loaded[id])
            &&& !collapsed[id].is_expanded
            &&& !toggle_fetches(collapsed[id])
            &&& toggle_in(collapsed, id) == loaded
        }),
{
    let loaded = completed(toggle_in(m, id), id, results);
    let collapsed = toggle_in(loaded, id);
    assert(toggle_in(m, id)[id].comment == m[id].comment);
    assert(loaded[id].children.len() == results.len());
    assert(toggle_in(collapsed, id) =~= loaded);
}

/// A toggle of a failed node expands it and fetches its replies again; when
/// they all arrive it turns idle and expanded. A toggle of an expanded idle
/// node collapses it and keeps its replies.
pub proof fn lemma_toggle_retry(m: Map<u32, NodeView>, id: u32, results: Seq<Option<Comment>>)
    requires
        m.contains_key(id),
    ensures
        m[id].fetch_state == FetchState::Failed ==> {
            &&& toggle_fetches(m[id])
            &&& toggle_in(m, id)[id].fetch_state == FetchState::Loading
            &&& toggle_in(m, id)[id].is_expanded
            &&& fetch_succeeded(kid_ids(m[id].comment), results) ==> {
                let after = completed(toggle_in(m, id), id, results);
                &&& after[id].fetch_state == FetchState::Idle
                &&& after[id].is_expanded
                &&& after[id].children == comment_ids(fetched(results))
            }
        },
        m[id].fetch_state == FetchState::Idle && m[id].is_expanded ==> {
            &&& !toggle_fetches(m[id])
            &&& !toggle_in(m, id)[id].is_expanded
            &&& toggle_in(m, id)[id].fetch_state == FetchState::Idle
            &&& toggle_in(m, id)[id].children == m[id].children
        },
{
    assert(toggle_in(m, id)[id].comment == m[id].comment);
}

} // verus!
