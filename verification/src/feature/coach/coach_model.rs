use vstd::prelude::*;

use crate::validation::{
    check_email, check_min_len, errors_view, finish, flag, min_len, note, validation_outcome,
    FieldError, Rule,
};
use crate::outside::email_is_valid;

verus! {

/// A new coach.
#[derive(Clone, Debug)]
pub struct CreateCoachRequest {
    pub full_name: String,
    pub email: String,
    pub phone_number: String,
    pub coach_address: String,
    pub gender: String,
}

impl CreateCoachRequest {
    /// The rules the body breaks, in field order: `full_name` at least 0 characters; `email` an e-mail address; `phone_number` at least 0 characters; `coach_address` at least 0 characters; `gender` a gender the gender rule accepts.
    /// `gender_accepted` is the verdict of the application's gender rule on the gender given.
    pub open spec fn violations(&self, gender_accepted: bool) -> Seq<(Seq<char>, Rule)> {
        flag(min_len(self.full_name@, 0), "full_name"@, Rule::Length)
            + flag(email_is_valid(self.email@), "email"@, Rule::Email)
            + flag(min_len(self.phone_number@, 0), "phone_number"@, Rule::Length)
            + flag(min_len(self.coach_address@, 0), "coach_address"@, Rule::Length)
            + flag(gender_accepted, "gender"@, Rule::Custom)
    }

    /// Checks the body against its rules.
    pub fn validate(&self, gender_accepted: bool) -> (r: Result<(), Vec<FieldError>>)
        ensures
            validation_outcome(r, self.violations(gender_accepted)),
    {
        let mut errs: Vec<FieldError> = Vec::new();
        note(check_min_len(&self.full_name, 0), "full_name", Rule::Length, &mut errs);
        note(check_email(&self.email), "email", Rule::Email, &mut errs);
        note(check_min_len(&self.phone_number, 0), "phone_number", Rule::Length, &mut errs);
        note(check_min_len(&self.coach_address, 0), "coach_address", Rule::Length, &mut errs);
        note(gender_accepted, "gender", Rule::Custom, &mut errs);
        assert(errors_view(errs@) =~= self.violations(gender_accepted));
        finish(errs)
    }
}

/// The details of a coach to change; absent fields stay as they are.
#[derive(Clone, Debug)]
pub struct UpdateCoachRequest {
    pub full_name: Option<String>,
    pub email: Option<String>,
    pub phone_number: Option<String>,
    pub coach_address: Option<String>,
    pub gender: Option<String>,
}

impl UpdateCoachRequest {
    /// The rules the body breaks, in field order: `gender` a gender the gender rule accepts.
    /// `gender_accepted` is the verdict of the application's gender rule on the gender given.
    pub open spec fn violations(&self, gender_accepted: bool) -> Seq<(Seq<char>, Rule)> {
        flag(self.gender is None || gender_accepted, "gender"@, Rule::Custom)
    }

    /// Checks the body against its rules.
    pub fn validate(&self, gender_accepted: bool) -> (r: Result<(), Vec<FieldError>>)
        ensures
            validation_outcome(r, self.violations(gender_accepted)),
    {
        let mut errs: Vec<FieldError> = Vec::new();
        note(self.gender.is_none() || gender_accepted, "gender", Rule::Custom, &mut errs);
        assert(errors_view(errs@) =~= self.violations(gender_accepted));
        finish(errs)
    }
}

} // verus!
