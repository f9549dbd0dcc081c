use vstd::prelude::*;

use crate::validation::{
    check_min_len, check_opt_min_len, errors_view, finish, flag, min_len, note, opt_min_len,
    opt_view, validation_outcome, FieldError, Rule,
};

verus! {

/// A new thread.
#[derive(Clone, Debug)]
pub struct CreatedThreadRequest {
    pub quote_thread_id: Option<String>,
    pub reply_to_thread_id: Option<String>,
    pub slug: String,
    pub title: String,
    pub content: String,
    pub attachment: Vec<String>,
}

impl CreatedThreadRequest {
    /// The rules the body breaks, in field order: `slug` at least 1 character; `title` at least 1 character; `content` at least 1 character.
    pub open spec fn violations(&self) -> Seq<(Seq<char>, Rule)> {
        flag(min_len(self.slug@, 1), "slug"@, Rule::Length)
            + flag(min_len(self.title@, 1), "title"@, Rule::Length)
            + flag(min_len(self.content@, 1), "content"@, Rule::Length)
    }

    /// Checks the body against its rules.
    pub fn validate(&self) -> (r: Result<(), Vec<FieldError>>)
        ensures
            validation_outcome(r, self.violations()),
    {
        let mut errs: Vec<FieldError> = Vec::new();
        note(check_min_len(&self.slug, 1), "slug", Rule::Length, &mut errs);
        note(check_min_len(&self.title, 1), "title", Rule::Length, &mut errs);
        note(check_min_len(&self.content, 1), "content", Rule::Length, &mut errs);
        assert(errors_view(errs@) =~= self.violations());
        finish(errs)
    }
}

/// The changes to a thread.
#[derive(Clone, Debug)]
pub struct UpdateThreadRequest {
    pub quote_thread_id: Option<String>,
    pub slug: Option<String>,
    pub title: Option<String>,
    pub content: Option<String>,
    pub new_attachment: Vec<String>,
    pub removed_attachment: Vec<String>,
}

impl UpdateThreadRequest {
    /// The rules the body breaks, in field order: `slug` at least 1 character when given; `title` at least 1 character when given; `content` at least 1 character when given.
    pub open spec fn violations(&self) -> Seq<(Seq<char>, Rule)> {
        flag(opt_min_len(opt_view(self.slug), 1), "slug"@, Rule::Length)
            + flag(opt_min_len(opt_view(self.title), 1), "title"@, Rule::Length)
            + flag(opt_min_len(opt_view(self.content), 1), "content"@, Rule::Length)
    }

    /// Checks the body against its rules.
    pub fn validate(&self) -> (r: Result<(), Vec<FieldError>>)
        ensures
            validation_outcome(r, self.violations()),
    {
        let mut errs: Vec<FieldError> = Vec::new();
        note(check_opt_min_len(&self.slug, 1), "slug", Rule::Length, &mut errs);
        note(check_opt_min_len(&self.title, 1), "title", Rule::Length, &mut errs);
        note(check_opt_min_len(&self.content, 1), "content", Rule::Length, &mut errs);
        assert(errors_view(errs@) =~= self.violations());
        finish(errs)
    }
}

} // verus!
