use vstd::prelude::*;

use crate::validation::{
    check_min_len, errors_view, finish, flag, min_len, note, validation_outcome, FieldError, Rule,
};

verus! {

/// A new member.
#[derive(Clone, Debug)]
pub struct CreateMemberRequest {
    pub full_name: String,
    pub gender: Option<String>,
    pub email: Option<String>,
    pub identity_number: Option<String>,
    pub coach_id: Option<String>,
    pub phone_number: Option<String>,
}

impl CreateMemberRequest {
    /// The rules the body breaks, in field order: `full_name` at least 1 character; `gender` a gender the gender rule accepts.
    /// `gender_accepted` is the verdict of the application's gender rule on the gender given.
    pub open spec fn violations(&self, gender_accepted: bool) -> Seq<(Seq<char>, Rule)> {
        flag(min_len(self.full_name@, 1), "full_name"@, Rule::Length)
            + flag(self.gender is None || gender_accepted, "gender"@, Rule::Custom)
    }

    /// Checks the body against its rules.
    pub fn validate(&self, gender_accepted: bool) -> (r: Result<(), Vec<FieldError>>)
        ensures
            validation_outcome(r, self.violations(gender_accepted)),
    {
        let mut errs: Vec<FieldError> = Vec::new();
        note(check_min_len(&self.full_name, 1), "full_name", Rule::Length, &mut errs);
        note(self.gender.is_none() || gender_accepted, "gender", Rule::Custom, &mut errs);
        assert(errors_view(errs@) =~= self.violations(gender_accepted));
        finish(errs)
    }
}

/// The details of a member to change; absent fields stay as they are.
#[derive(Clone, Debug)]
pub struct UpdateMemberRequest {
    pub full_name: Option<String>,
    pub gender: Option<String>,
    pub email: Option<String>,
    pub identity_number: Option<String>,
    pub coach_id: Option<String>,
    pub phone_number: Option<String>,
}

impl UpdateMemberRequest {
    /// The rules the body breaks, in field order: `gender` a gender the gender rule accepts.
    /// `gender_accepted` is the verdict of the application's gender rule on the gender given.
    pub open spec fn violations(&self, gender_accepted: bool) -> Seq<(Seq<char>, Rule)> {
        flag(self.gender is None || gender_accepted, "gender"@, Rule::Custom)
    }

    /// Checks the body against its rules.
    pub fn validate(&self, gender_accepted: bool) -> (r: Result<(), Vec<FieldError>>)
        ensures
            validation_outcome(r, self.violations(gender_accepted)),
    {
        let mut errs: Vec<FieldError> = Vec::new();
        note(self.gender.is_none() || gender_accepted, "gender", Rule::Custom, &mut errs);
        assert(errors_view(errs@) =~= self.violations(gender_accepted));
        finish(errs)
    }
}

} // verus!
