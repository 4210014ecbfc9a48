//! What a comment shows: its text as plain lines, and the label of its
//! expand control.

use vstd::prelude::*;
use vstd::string::StringExecFns;
use crate::models::{Comment, FetchState};

verus! {

/// Column at which comment text is wrapped.
pub const COMMENT_WRAP_WIDTH: usize = 80;

/// Width in pixels of one level of reply indentation.
pub const INDENTATION_SIZE: u32 = 20;

/// The plain text that html2text renders from `html` at `width` columns, or
/// `None` where it reports an error.
pub uninterp spec fn html_plain_text(html: Seq<char>, width: nat) -> Option<Seq<char>>;

/// Relies on html2text::from_read: renders HTML as plain text wrapped at
/// `width` columns; the outcome depends on the text and the width alone.
#[verifier::external_body]
fn html_to_plain_text(html: &str, width: usize) -> (r: Option<String>)
    ensures
        match r {
            Some(s) => html_plain_text(html@, width as nat) == Some(s@),
            None => html_plain_text(html@, width as nat) == None::<Seq<char>>,
        },
{
    match html2text::from_read(html.as_bytes(), width) {
        Ok(s) => Some(s),
        Err(_) => None,
    }
}

/// The text shown for a comment: a marker when deleted, nothing when it has no
/// text, else its plain rendering, or a marker where rendering failed.
pub open spec fn display_text_of(deleted: bool, has_text: bool, plain: Option<Seq<char>>) -> Seq<char> {
    if deleted {
        "[deleted]"@
    } else if !has_text {
        Seq::empty()
    } else {
        match plain {
            Some(p) => p,
            None => "[failed to parse comment]"@,
        }
    }
}

/// The text shown for `c`.
pub open spec fn comment_display_text(c: Comment) -> Seq<char> {
    display_text_of(
        c.deleted,
        c.text is Some,
        match c.text {
            Some(t) => html_plain_text(t@, COMMENT_WRAP_WIDTH as nat),
            None => None,
        },
    )
}

/// The text shown for a comment, given the plain rendering of its text.
pub fn display_text_from(deleted: bool, has_text: bool, plain: Option<String>) -> (r: String)
    ensures
        r@ == display_text_of(deleted, has_text, match plain {
            Some(p) => Some(p@),
            None => None,
        }),
{
    if deleted {
        String::from_str("[deleted]")
    } else if !has_text {
        String::new()
    } else {
        match plain {
            Some(p) => p,
            None => String::from_str("[failed to parse comment]"),
        }
    }
}

impl Comment {
    /// The text shown for this comment.
    pub fn display_text(&self) -> (r: String)
        ensures
            r@ == comment_display_text(*self),
    {
        if self.deleted {
            return display_text_from(true, self.text.is_some(), None);
        }
        match &self.text {
            Some(t) => display_text_from(false, true, html_to_plain_text(t.as_str(), COMMENT_WRAP_WIDTH)),
            None => display_text_from(false, false, None),
        }
    }
}

/// The label of a node's expand control.
pub open spec fn toggle_label_of(state: FetchState, expanded: bool) -> Seq<char> {
    if state == FetchState::Loading {
        "⏳"@
    } else if expanded {
        "[-]"@
    } else {
        "[+]"@
    }
}

/// The label of a node's expand control: an hourglass while loading, then
/// `[-]` when expanded and `[+]` when collapsed.
pub fn toggle_label(state: FetchState, expanded: bool) -> (r: &'static str)
    ensures
        r@ == toggle_label_of(state, expanded),
{
    if state == FetchState::Loading {
        "⏳"
    } else if expanded {
        "[-]"
    } else {
        "[+]"
    }
}

/// Left padding in pixels of a comment at reply depth `depth`.
pub fn indentation(depth: u16) -> (r: u32)
    ensures
        r == depth * INDENTATION_SIZE,
{
    depth as u32 * INDENTATION_SIZE
}

} // verus!
