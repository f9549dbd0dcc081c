use vstd::prelude::*;

use crate::validation::{
    check_min_len, errors_view, finish, flag, min_len, note, validation_outcome, FieldError, Rule,
};

verus! {

/// A search for threads.
#[derive(Clone, Debug)]
pub struct FilterThreadRequest {
    pub page: Option<i64>,
    pub size: Option<i64>,
    pub q: Option<String>,
    pub mentions: Option<Vec<String>>,
    pub tags: Option<Vec<String>>,
}

/// A new thread.
#[derive(Clone, Debug)]
pub struct CreateNewThreadRequest {
    pub quote_thread_id: Option<String>,
    pub title: String,
    pub content: String,
    pub mentions: Option<Vec<String>>,
    pub tags: Option<Vec<String>>,
}

impl CreateNewThreadRequest {
    /// The rules the body breaks, in field order: `title` at least 1 character.
    pub open spec fn violations(&self) -> Seq<(Seq<char>, Rule)> {
        flag(min_len(self.title@, 1), "title"@, Rule::Length)
    }

    /// Checks the body against its rules.
    pub fn validate(&self) -> (r: Result<(), Vec<FieldError>>)
        ensures
            validation_outcome(r, self.violations()),
    {
        let mut errs: Vec<FieldError> = Vec::new();
        note(check_min_len(&self.title, 1), "title", Rule::Length, &mut errs);
        assert(errors_view(errs@) =~= self.violations());
        finish(errs)
    }
}

/// The new contents of a thread.
#[derive(Clone, Debug)]
pub struct UpdateThreadRequest {
    pub quote_thread_id: String,
    pub title: String,
    pub content: String,
    pub mentions: Option<Vec<String>>,
    pub tags: Option<Vec<String>>,
}

impl UpdateThreadRequest {
    /// The rules the body breaks, in field order: `title` at least 1 character.
    pub open spec fn violations(&self) -> Seq<(Seq<char>, Rule)> {
        flag(min_len(self.title@, 1), "title"@, Rule::Length)
    }

    /// Checks the body against its rules.
    pub fn validate(&self) -> (r: Result<(), Vec<FieldError>>)
        ensures
            validation_outcome(r, self.violations()),
    {
        let mut errs: Vec<FieldError> = Vec::new();
        note(check_min_len(&self.title, 1), "title", Rule::Length, &mut errs);
        assert(errors_view(errs@) =~= self.violations());
        finish(errs)
    }
}

/// A comment on a thread, or a reply to a comment.
#[derive(Clone, Debug)]
pub struct CreateCommentRequest {
    pub thread_id: String,
    pub content: String,
    pub comment_id: Option<String>,
    pub tags: Option<Vec<String>>,
    pub mentions: Option<Vec<String>>,
}

impl CreateCommentRequest {
    /// The rules the body breaks, in field order: `thread_id` at least 1 character.
    pub open spec fn violations(&self) -> Seq<(Seq<char>, Rule)> {
        flag(min_len(self.thread_id@, 1), "thread_id"@, Rule::Length)
    }

    /// Checks the body against its rules.
    pub fn validate(&self) -> (r: Result<(), Vec<FieldError>>)
        ensures
            validation_outcome(r, self.violations()),
    {
        let mut errs: Vec<FieldError> = Vec::new();
        note(check_min_len(&self.thread_id, 1), "thread_id", Rule::Length, &mut errs);
        assert(errors_view(errs@) =~= self.violations());
        finish(errs)
    }
}

/// A vote on a thread or a comment.
#[derive(Clone, Debug)]
pub struct CreateVoteRequest {
    pub ref_id: String,
    pub vote_type: String,
}

impl CreateVoteRequest {
    /// The rules the body breaks, in field order: `ref_id` at least 1 character.
    pub open spec fn violations(&self) -> Seq<(Seq<char>, Rule)> {
        flag(min_len(self.ref_id@, 1), "ref_id"@, Rule::Length)
    }

    /// Checks the body against its rules.
    pub fn validate(&self) -> (r: Result<(), Vec<FieldError>>)
        ensures
            validation_outcome(r, self.violations()),
    {
        let mut errs: Vec<FieldError> = Vec::new();
        note(check_min_len(&self.ref_id, 1), "ref_id", Rule::Length, &mut errs);
        assert(errors_view(errs@) =~= self.violations());
        finish(errs)
    }
}

} // verus!
