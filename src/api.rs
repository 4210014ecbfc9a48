//! Remote resource names of the Hacker News API.

use vstd::prelude::*;
use vstd::string::StringExecFns;

verus! {

/// Root of every resource of the Hacker News API.
pub const HN_API_BASE_URL: &'static str = "https://hacker-news.firebaseio.com/v0/";

/// The six ranked story lists that the API publishes.
#[derive(Clone, Copy, PartialEq, Eq, Structural, Debug)]
pub enum StoryListType {
    Best,
    Top,
    New,
    Ask,
    Show,
    Job,
}

impl StoryListType {
    /// Name of the remote resource that holds this list.
    pub open spec fn api_name(self) -> Seq<char> {
        match self {
            StoryListType::Best => "beststories"@,
            StoryListType::Top => "topstories"@,
            StoryListType::New => "newstories"@,
            StoryListType::Ask => "askstories"@,
            StoryListType::Show => "showstories"@,
            StoryListType::Job => "jobstories"@,
        }
    }

    pub fn as_api_str(&self) -> (r: &'static str)
        ensures
            r@ == self.api_name(),
    {
        match self {
            StoryListType::Best => "beststories",
            StoryListType::Top => "topstories",
            StoryListType::New => "newstories",
            StoryListType::Ask => "askstories",
            StoryListType::Show => "showstories",
            StoryListType::Job => "jobstories",
        }
    }
}

/// The character of a decimal digit.
pub open spec fn digit_seq(d: nat) -> Seq<char> {
    if d == 0 {
        "0"@
    } else if d == 1 {
        "1"@
    } else if d == 2 {
        "2"@
    } else if d == 3 {
        "3"@
    } else if d == 4 {
        "4"@
    } else if d == 5 {
        "5"@
    } else if d == 6 {
        "6"@
    } else if d == 7 {
        "7"@
    } else if d == 8 {
        "8"@
    } else {
        "9"@
    }
}

/// Decimal notation of a natural number, without leading zeros.
pub open spec fn decimal(n: nat) -> Seq<char>
    decreases n,
{
    if n < 10 {
        digit_seq(n)
    } else {
        decimal(n / 10) + digit_seq(n % 10)
    }
}

fn digit_str(d: u32) -> (r: &'static str)
    requires
        d < 10,
    ensures
        r@ == digit_seq(d as nat),
{
    if d == 0 {
        "0"
    } else if d == 1 {
        "1"
    } else if d == 2 {
        "2"
    } else if d == 3 {
        "3"
    } else if d == 4 {
        "4"
    } else if d == 5 {
        "5"
    } else if d == 6 {
        "6"
    } else if d == 7 {
        "7"
    } else if d == 8 {
        "8"
    } else {
        "9"
    }
}

fn push_decimal(s: &mut String, n: u32)
    ensures
        final(s)@ == old(s)@ + decimal(n as nat),
    decreases n,
{
    if n >= 10 {
        push_decimal(s, n / 10);
    }
    s.append(digit_str(n % 10));
    assert(final(s)@ =~= old(s)@ + decimal(n as nat));
}

/// Decimal notation of `n`.
pub fn decimal_string(n: u32) -> (r: String)
    ensures
        r@ == decimal(n as nat),
{
    let mut s = String::new();
    push_decimal(&mut s, n);
    assert(s@ =~= decimal(n as nat));
    s
}

/// Address of the item with the given identifier.
pub fn hn_item_url(id: u32) -> (r: String)
    ensures
        r@ == HN_API_BASE_URL@ + "item/"@ + decimal(id as nat) + ".json"@,
{
    let mut s = String::from_str(HN_API_BASE_URL);
    s.append("item/");
    push_decimal(&mut s, id);
    s.append(".json");
    s
}

/// Address of the identifier list of the given story list.
pub fn get_story_list_url(list_type: StoryListType) -> (r: String)
    ensures
        r@ == HN_API_BASE_URL@ + list_type.api_name() + ".json"@,
{
    let mut s = String::from_str(HN_API_BASE_URL);
    s.append(list_type.as_api_str());
    s.append(".json");
    s
}

} // verus!
