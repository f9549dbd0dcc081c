use vstd::prelude::*;

use super::threads_model::{CreateCommentRequest, FilterThreadRequest};
use crate::text::{concat_str, equal_str};

verus! {

/// The number of entries an optional list holds (none when absent).
pub open spec fn opt_len(v: Option<Vec<String>>) -> nat {
    match v {
        Some(l) => l@.len(),
        None => 0,
    }
}

impl FilterThreadRequest {
    /// The search is refused when it gives both a text and mentions, or when it gives any tag.
    pub open spec fn conflicting(&self) -> bool {
        (self.q is Some && opt_len(self.mentions) > 0) || opt_len(self.tags) > 0
    }

    /// Whether the search is refused for mixing its criteria.
    pub fn has_conflicting_filters(&self) -> (r: bool)
        ensures
            r == self.conflicting(),
            self.q is None && (self.tags is None || self.tags->0@.len() == 0) ==> !r,
            self.tags matches Some(t) && t@.len() > 0 ==> r,
            self.q is Some && (self.mentions matches Some(m) && m@.len() > 0) ==> r,
            (self.mentions is None || self.mentions->0@.len() == 0) && (self.tags is None
                || self.tags->0@.len() == 0) ==> !r,
    {
        let mentions = match &self.mentions {
            Some(l) => l.len(),
            None => 0,
        };
        let tags = match &self.tags {
            Some(l) => l.len(),
            None => 0,
        };
        (self.q.is_some() && mentions > 0) || tags > 0
    }
}

/// A search is refused exactly when it gives a text together with mentions, or gives any
/// tag: mentions alone, or a text alone, are searched; a search with no mentions and no tags
/// is never refused.
pub proof fn law_thread_search_refusal(f: FilterThreadRequest)
    ensures
        f.q is None && (f.tags is None || f.tags->0@.len() == 0) ==> !f.conflicting(),
        (f.mentions is None || f.mentions->0@.len() == 0) && (f.tags is None || f.tags->0@.len()
            == 0) ==> !f.conflicting(),
        f.tags matches Some(t) && t@.len() > 0 ==> f.conflicting(),
        f.q is Some && (f.mentions matches Some(m) && m@.len() > 0) ==> f.conflicting(),
{
}

/// The page shown when none is asked for.
pub const DEFAULT_PAGE: i64 = 1;

/// The page size used when none is asked for.
pub const DEFAULT_PAGE_SIZE: i64 = 20;

/// The page and size a listing uses: the ones asked for, or page 1 of 20.
pub open spec fn page_and_size(page: Option<i64>, size: Option<i64>) -> (i64, i64) {
    (
        match page {
            Some(p) => p,
            None => DEFAULT_PAGE,
        },
        match size {
            Some(s) => s,
            None => DEFAULT_PAGE_SIZE,
        },
    )
}

/// The number of entries a listing skips fits an `i64`.
pub open spec fn window_fits(page: Option<i64>, size: Option<i64>) -> bool {
    let (p, s) = page_and_size(page, size);
    i64::MIN <= (p - 1) * s <= i64::MAX && i64::MIN <= p - 1
}

/// The window of a thread listing: its page, its size, and how many entries it skips.
pub fn page_window(page: Option<i64>, size: Option<i64>) -> (r: (i64, i64, i64))
    requires
        window_fits(page, size),
    ensures
        r.0 == page_and_size(page, size).0,
        r.1 == page_and_size(page, size).1,
        r.2 == (r.0 - 1) * r.1,
{
    let p = match page {
        Some(v) => v,
        None => DEFAULT_PAGE,
    };
    let s = match size {
        Some(v) => v,
        None => DEFAULT_PAGE_SIZE,
    };
    let skip = (p - 1) * s;
    (p, s, skip)
}

/// The counter a vote moves.
#[derive(Clone, Copy, Debug, PartialEq, Eq, Structural)]
pub enum VoteCounter {
    UpVote,
    DownVote,
}

/// A vote of type `UpVote` moves the up-vote counter and notifies the author; any other vote
/// type moves the down-vote counter.
pub fn vote_counter(vote_type: &str) -> (r: VoteCounter)
    ensures
        vote_type@ == "UpVote"@ <==> r == VoteCounter::UpVote,
{
    if equal_str(vote_type, "UpVote") {
        VoteCounter::UpVote
    } else {
        VoteCounter::DownVote
    }
}

/// What the author of a thread is told about a new comment: a comment on the thread, or a
/// reply to one of its comments.
pub open spec fn comment_notice(reply: bool) -> Seq<char> {
    "Seseorang "@ + (if reply {
        "Membalas Komentar"@
    } else {
        "Mengomentari Postingan"@
    }) + " Anda."@
}

impl CreateCommentRequest {
    /// The notice sent to the thread's author about this comment.
    pub fn notification_message(&self) -> (r: String)
        ensures
            r@ == comment_notice(self.comment_id is Some),
    {
        let subject = match &self.comment_id {
            None => "Mengomentari Postingan",
            Some(_) => "Membalas Komentar",
        };
        let head = concat_str("Seseorang ", subject);
        concat_str(head.as_str(), " Anda.")
    }
}

} // verus!
