pub mod thread_model;

use vstd::prelude::*;

use crate::object_id::{key_of_text, key_view, parse_object_id, ObjectKey};
use crate::text::{contains_str, field_if, has_infix, views_of};
use thread_model::{CreatedThreadRequest, UpdateThreadRequest};

verus! {

/// The attachment `id` is asked to be removed: some entry of `removed` holds it.
pub open spec fn removal_requested(id: Seq<char>, removed: Seq<String>) -> bool {
    exists|j: int| 0 <= j < removed.len() && has_infix(#[trigger] removed[j]@, id)
}

/// The thread's current attachments, split into those to delete and those to keep, in
/// order; attachments without an id are left out of both.
pub open spec fn split_attachments(active: Seq<Option<String>>, removed: Seq<String>) -> (
    Seq<Seq<char>>,
    Seq<Seq<char>>,
)
    decreases active.len(),
{
    if active.len() == 0 {
        (Seq::empty(), Seq::empty())
    } else {
        let (d, k) = split_attachments(active.drop_last(), removed);
        match active.last() {
            None => (d, k),
            Some(id) => if removal_requested(id@, removed) {
                (d.push(id@), k)
            } else {
                (d, k.push(id@))
            },
        }
    }
}

/// The number of attachments that have an id.
pub open spec fn count_with_id(active: Seq<Option<String>>) -> nat
    decreases active.len(),
{
    if active.len() == 0 {
        0
    } else {
        count_with_id(active.drop_last()) + if active.last() is Some {
            1nat
        } else {
            0nat
        }
    }
}

/// Which attachments an update of a thread deletes from the reserve and which the thread keeps.
pub struct AttachmentPlan {
    /// Removed attachments, then the newly reserved ones (whose reservations are released).
    pub deleted: Vec<String>,
    /// Kept attachments, then the newly reserved ones.
    pub kept: Vec<String>,
}

/// Whether some entry of `removed` holds `id`.
pub fn is_removal_requested(id: &String, removed: &Vec<String>) -> (r: bool)
    ensures
        r == removal_requested(id@, removed@),
{
    let mut j: usize = 0;
    while j < removed.len()
        invariant
            j <= removed.len(),
            forall|i: int| 0 <= i < j ==> !has_infix(#[trigger] removed@[i]@, id@),
        decreases removed.len() - j,
    {
        if contains_str(removed[j].as_str(), id.as_str()) {
            return true;
        }
        j = j + 1;
    }
    false
}

/// Splits the attachments of a thread being updated: each current attachment whose id some
/// entry of `removed` holds is deleted, every other one is kept, and the newly `reserved`
/// ones are both kept and released from the reserve.
pub fn plan_attachments(
    active: &Vec<Option<String>>,
    removed: &Vec<String>,
    reserved: &Vec<String>,
) -> (r: AttachmentPlan)
    ensures
        views_of(r.deleted@) == split_attachments(active@, removed@).0 + views_of(reserved@),
        views_of(r.kept@) == split_attachments(active@, removed@).1 + views_of(reserved@),
{
    let mut deleted: Vec<String> = Vec::new();
    let mut kept: Vec<String> = Vec::new();
    let mut i: usize = 0;
    while i < active.len()
        invariant
            i <= active.len(),
            views_of(deleted@) == split_attachments(active@.take(i as int), removed@).0,
            views_of(kept@) == split_attachments(active@.take(i as int), removed@).1,
        decreases active.len() - i,
    {
        assert(active@.take(i + 1).drop_last() =~= active@.take(i as int));
        assert(active@.take(i + 1).last() == active@[i as int]);
        match &active[i] {
            Some(id) => {
                if is_removal_requested(id, removed) {
                    deleted.push(id.clone());
                    assert(views_of(deleted@) =~= split_attachments(active@.take(i + 1), removed@).0);
                } else {
                    kept.push(id.clone());
                    assert(views_of(kept@) =~= split_attachments(active@.take(i + 1), removed@).1);
                }
            },
            None => {},
        }
        i = i + 1;
    }
    assert(active@.take(active.len() as int) =~= active@);
    let ghost d0 = deleted@;
    let ghost k0 = kept@;
    let mut j: usize = 0;
    while j < reserved.len()
        invariant
            j <= reserved.len(),
            views_of(deleted@) == views_of(d0) + views_of(reserved@.take(j as int)),
            views_of(kept@) == views_of(k0) + views_of(reserved@.take(j as int)),
        decreases reserved.len() - j,
    {
        let ghost old_d = deleted@;
        let ghost old_k = kept@;
        let x = reserved[j].clone();
        let y = reserved[j].clone();
        deleted.push(x);
        kept.push(y);
        let ghost item = reserved@[j as int];
        assert(reserved@.take(j + 1) =~= reserved@.take(j as int).push(item));
        assert(views_of(reserved@.take(j as int).push(item)) =~= views_of(reserved@.take(j as int)).push(item@));
        assert(views_of(old_d.push(item)) =~= views_of(old_d).push(item@));
        assert(views_of(old_k.push(item)) =~= views_of(old_k).push(item@));
        assert(views_of(deleted@) =~= views_of(d0) + views_of(reserved@.take(j + 1)));
        assert(views_of(kept@) =~= views_of(k0) + views_of(reserved@.take(j + 1)));
        j = j + 1;
    }
    assert(reserved@.take(reserved.len() as int) =~= reserved@);
    AttachmentPlan { deleted, kept }
}

/// Every current attachment with an id is either deleted or kept, never both: those deleted
/// are exactly the ones asked for.
pub proof fn law_attachment_split_partitions(active: Seq<Option<String>>, removed: Seq<String>)
    ensures
        ({
            let (d, k) = split_attachments(active, removed);
            &&& d.len() + k.len() == count_with_id(active)
            &&& forall|x: int| 0 <= x < d.len() ==> removal_requested(#[trigger] d[x], removed)
            &&& forall|x: int| 0 <= x < k.len() ==> !removal_requested(#[trigger] k[x], removed)
        }),
    decreases active.len(),
{
    if active.len() > 0 {
        law_attachment_split_partitions(active.drop_last(), removed);
        let (d0, k0) = split_attachments(active.drop_last(), removed);
        match active.last() {
            None => {},
            Some(id) => {
                if removal_requested(id@, removed) {
                    assert forall|x: int| 0 <= x < d0.push(id@).len() implies removal_requested(
                        #[trigger] d0.push(id@)[x],
                        removed,
                    ) by {
                        if x < d0.len() {
                            assert(d0.push(id@)[x] == d0[x]);
                        }
                    }
                } else {
                    assert forall|x: int| 0 <= x < k0.push(id@).len() implies !removal_requested(
                        #[trigger] k0.push(id@)[x],
                        removed,
                    ) by {
                        if x < k0.len() {
                            assert(k0.push(id@)[x] == k0[x]);
                        }
                    }
                }
            },
        }
    }
}

/// With nothing asked to be removed and nothing reserved, an update keeps every attachment.
pub proof fn law_attachment_nothing_removed(active: Seq<Option<String>>)
    ensures
        split_attachments(active, Seq::empty()).0.len() == 0,
        split_attachments(active, Seq::empty()).1.len() == count_with_id(active),
    decreases active.len(),
{
    law_attachment_split_partitions(active, Seq::empty());
    if active.len() > 0 {
        law_attachment_nothing_removed(active.drop_last());
    }
}

/// The record id an optional id text stands for: none when absent or not a record id (how a
/// quoted or replied-to thread id is read).
pub open spec fn optional_key(text: Option<String>) -> Option<Seq<u8>> {
    match text {
        Some(t) => key_of_text(t@),
        None => None,
    }
}

/// Reads an optional thread id; an id that is not a record id counts as no id.
pub fn parse_optional_thread_id(text: &Option<String>) -> (r: Option<ObjectKey>)
    ensures
        key_view(r) == optional_key(*text),
{
    match text {
        Some(t) => parse_object_id(t.as_str()),
        None => None,
    }
}

/// What a vote request on a thread does.
#[derive(Clone, Copy, Debug, PartialEq, Eq, Structural)]
pub enum ThreadVoteStep {
    /// Nothing changes: the user has already liked the thread, or has no vote to withdraw.
    Refused,
    /// The user's vote is recorded (`true`) or deleted (`false`), and the thread's up-vote
    /// counter moves by `delta`.
    Apply { record: bool, delta: i64 },
}

/// The step of a like request by a user who has (`already_liked`) or has not liked the thread.
pub open spec fn upvote_decision(already_liked: bool) -> ThreadVoteStep {
    if already_liked {
        ThreadVoteStep::Refused
    } else {
        ThreadVoteStep::Apply { record: true, delta: 1 }
    }
}

/// Liking a thread: refused when the user has liked it already; otherwise the like is
/// recorded and the up-vote counter goes up by one.
pub fn upvote_step(already_liked: bool) -> (r: ThreadVoteStep)
    ensures
        r == upvote_decision(already_liked),
{
    if already_liked {
        ThreadVoteStep::Refused
    } else {
        ThreadVoteStep::Apply { record: true, delta: 1 }
    }
}

/// Down-voting a thread: refused unless the user holds a down-vote on it; otherwise that vote
/// is deleted and the up-vote counter goes down by one.
pub fn down_vote_step(has_down_vote: bool) -> (r: ThreadVoteStep)
    ensures
        r == (if has_down_vote {
            ThreadVoteStep::Apply { record: false, delta: -1i64 }
        } else {
            ThreadVoteStep::Refused
        }),
{
    if has_down_vote {
        ThreadVoteStep::Apply { record: false, delta: -1 }
    } else {
        ThreadVoteStep::Refused
    }
}

/// The likes of a thread after `user` asks to like it: the users who liked it and its up-vote
/// counter, moved as [`upvote_decision`] says.
pub open spec fn after_like(likers: Set<int>, count: int, user: int) -> (Set<int>, int) {
    match upvote_decision(likers.contains(user)) {
        ThreadVoteStep::Apply { delta, .. } => (likers.insert(user), count + delta),
        ThreadVoteStep::Refused => (likers, count),
    }
}

/// A user's likes count once: liking a thread a second time changes nothing, and a like
/// keeps the counter moving with the set of users who liked it.
pub proof fn law_like_counts_once(likers: Set<int>, count: int, user: int)
    requires
        likers.finite(),
    ensures
        after_like(after_like(likers, count, user).0, after_like(likers, count, user).1, user)
            == after_like(likers, count, user),
        after_like(likers, count, user).1 - after_like(likers, count, user).0.len() == count
            - likers.len(),
{
}

/// The details of a thread that an update of its text can change.
#[derive(Clone, Debug)]
pub struct ThreadDetails {
    pub quote_thread_id: Option<ObjectKey>,
    pub slug: String,
    pub title: String,
    pub content: String,
}

/// The view of [`ThreadDetails`]: quoted thread, slug, title and content.
pub struct ThreadDetailsView {
    pub quote_thread_id: Option<Seq<u8>>,
    pub slug: Seq<char>,
    pub title: Seq<char>,
    pub content: Seq<char>,
}

impl View for ThreadDetails {
    type V = ThreadDetailsView;

    open spec fn view(&self) -> ThreadDetailsView {
        ThreadDetailsView {
            quote_thread_id: key_view(self.quote_thread_id),
            slug: self.slug@,
            title: self.title@,
            content: self.content@,
        }
    }
}

impl UpdateThreadRequest {
    /// The thread as the update answers it: the quoted thread is always set, to the record
    /// id given (none when absent or not a record id); a slug given replaces the slug; the
    /// title stays, while a title given becomes the content, unless a content is given too,
    /// which then wins.
    pub open spec fn patched(&self, t: ThreadDetailsView) -> ThreadDetailsView {
        ThreadDetailsView {
            quote_thread_id: optional_key(self.quote_thread_id),
            slug: match self.slug {
                Some(v) => v@,
                None => t.slug,
            },
            title: t.title,
            content: match self.content {
                Some(c) => c@,
                None => match self.title {
                    Some(v) => v@,
                    None => t.content,
                },
            },
        }
    }

    /// The fields the update writes to the thread's record, in order: always the quoted
    /// thread, then each of slug, title and content that is given.
    pub open spec fn written_fields(&self) -> Seq<Seq<char>> {
        seq!["quote_thread_id"@] + field_if(self.slug, "slug"@) + field_if(self.title, "title"@)
            + field_if(self.content, "content"@)
    }

    /// Applies the update to the thread's details and gives the names of the fields written
    /// to its record.
    pub fn apply_to(&self, thread: &mut ThreadDetails) -> (fields: Vec<String>)
        ensures
            final(thread)@ == self.patched(old(thread)@),
            views_of(fields@) == self.written_fields(),
    {
        let mut fields: Vec<String> = Vec::new();
        thread.quote_thread_id = parse_optional_thread_id(&self.quote_thread_id);
        fields.push("quote_thread_id".to_string());
        let ghost f0 = fields@;
        if let Some(v) = &self.slug {
            thread.slug = v.clone();
            fields.push("slug".to_string());
        }
        let ghost f1 = fields@;
        if let Some(v) = &self.title {
            thread.content = v.clone();
            fields.push("title".to_string());
        }
        let ghost f2 = fields@;
        if let Some(v) = &self.content {
            thread.content = v.clone();
            fields.push("content".to_string());
        }
        proof {
            reveal_strlit("quote_thread_id");
            reveal_strlit("slug");
            reveal_strlit("title");
            reveal_strlit("content");
            assert(views_of(f0) =~= seq!["quote_thread_id"@]);
            assert(views_of(f1) =~= views_of(f0) + field_if(self.slug, "slug"@));
            assert(views_of(f2) =~= views_of(f1) + field_if(self.title, "title"@));
            assert(views_of(fields@) =~= views_of(f2) + field_if(self.content, "content"@));
        }
        fields
    }
}

/// Applying the same update twice gives the same thread as applying it once.
pub proof fn law_thread_update_idempotent(u: UpdateThreadRequest, t: ThreadDetailsView)
    ensures
        u.patched(u.patched(t)) == u.patched(t),
{
}

/// The counters a new thread moves: the quote count of the thread it quotes and the reply
/// count of the thread it replies to, each by one, where that id is a record id.
pub struct ThreadCounterBumps {
    pub quoted: Option<ObjectKey>,
    pub replied: Option<ObjectKey>,
}

impl CreatedThreadRequest {
    /// The threads whose quote and reply counters go up by one when this thread is created:
    /// the quoted and the replied-to thread, each only when its id is a record id.
    pub fn counter_bumps(&self) -> (r: ThreadCounterBumps)
        ensures
            key_view(r.quoted) == optional_key(self.quote_thread_id),
            key_view(r.replied) == optional_key(self.reply_to_thread_id),
    {
        ThreadCounterBumps {
            quoted: parse_optional_thread_id(&self.quote_thread_id),
            replied: parse_optional_thread_id(&self.reply_to_thread_id),
        }
    }
}

} // verus!
