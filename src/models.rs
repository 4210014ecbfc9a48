//! Records fetched from the API, and the fetch status of a comment node.

use vstd::prelude::*;

verus! {

/// A story as the API returns it; `time` is in seconds since the Unix epoch.
#[derive(Debug, Clone, PartialEq)]
pub struct Story {
    pub id: u32,
    pub title: Option<String>,
    pub url: Option<String>,
    pub by: Option<String>,
    pub score: Option<u32>,
    pub time: Option<i64>,
    pub descendants: Option<u32>,
    pub kids: Option<Vec<u32>>,
}

/// A comment as the API returns it; `time` is in seconds since the Unix epoch.
#[derive(Debug, Clone, PartialEq)]
pub struct Comment {
    pub id: u32,
    pub by: Option<String>,
    pub text: Option<String>,
    pub time: Option<i64>,
    pub kids: Option<Vec<u32>>,
    pub deleted: bool,
}

/// Status of the most recent attempt to fetch a node's children.
#[derive(Debug, Clone, Copy, PartialEq, Eq, Structural)]
pub enum FetchState {
    Idle,
    Loading,
    Failed,
}

impl Default for FetchState {
    fn default() -> (r: FetchState)
        ensures
            r == FetchState::Idle,
    {
        FetchState::Idle
    }
}

/// Identifiers of a comment's direct replies, in the order the API lists them.
pub open spec fn kid_ids(c: Comment) -> Seq<u32> {
    match c.kids {
        Some(v) => v@,
        None => Seq::empty(),
    }
}

/// The contents of an optional string.
pub open spec fn opt_view(o: Option<String>) -> Option<Seq<char>> {
    match o {
        Some(s) => Some(s@),
        None => None,
    }
}

/// A copy of `v[lo..hi]`.
pub(crate) fn copy_range(v: &Vec<u32>, lo: usize, hi: usize) -> (r: Vec<u32>)
    requires
        lo <= hi <= v.len(),
    ensures
        r@ == v@.subrange(lo as int, hi as int),
{
    let mut r: Vec<u32> = Vec::new();
    let mut i: usize = lo;
    while i < hi
        invariant
            lo <= i <= hi <= v.len(),
            r@ == v@.subrange(lo as int, i as int),
        decreases hi - i,
    {
        r.push(v[i]);
        i = i + 1;
        assert(r@ =~= v@.subrange(lo as int, i as int));
    }
    r
}

impl Comment {
    /// Whether the comment lists at least one reply.
    pub fn has_kids(&self) -> (r: bool)
        ensures
            r == (kid_ids(*self).len() > 0),
    {
        match &self.kids {
            Some(k) => k.len() > 0,
            None => false,
        }
    }

    /// The identifiers of the direct replies.
    pub fn kid_list(&self) -> (r: Vec<u32>)
        ensures
            r@ == kid_ids(*self),
    {
        match &self.kids {
            Some(k) => copy_range(k, 0, k.len()),
            None => Vec::new(),
        }
    }
}

} // verus!
