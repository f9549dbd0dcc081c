use vstd::prelude::*;

use crate::validation::{
    check_min_len, errors_view, finish, flag, min_len, note, validation_outcome, FieldError, Rule,
};

verus! {

/// A new branch.
#[derive(Clone, Debug)]
pub struct CreateBranchRequest {
    pub branch_name: String,
    pub branch_description: String,
    pub branch_email: Option<String>,
    pub branch_phone_number: Option<String>,
    pub branch_address: Option<String>,
}

impl CreateBranchRequest {
    /// The rules the body breaks, in field order: `branch_name` at least 1 character; `branch_description` at least 1 character.
    pub open spec fn violations(&self) -> Seq<(Seq<char>, Rule)> {
        flag(min_len(self.branch_name@, 1), "branch_name"@, Rule::Length)
            + flag(min_len(self.branch_description@, 1), "branch_description"@, Rule::Length)
    }

    /// Checks the body against its rules.
    pub fn validate(&self) -> (r: Result<(), Vec<FieldError>>)
        ensures
            validation_outcome(r, self.violations()),
    {
        let mut errs: Vec<FieldError> = Vec::new();
        note(check_min_len(&self.branch_name, 1), "branch_name", Rule::Length, &mut errs);
        note(check_min_len(&self.branch_description, 1), "branch_description", Rule::Length, &mut errs);
        assert(errors_view(errs@) =~= self.violations());
        finish(errs)
    }
}

/// The new details of a branch.
#[derive(Clone, Debug)]
pub struct UpdateBranchRequest {
    pub branch_name: String,
    pub branch_description: String,
    pub branch_email: Option<String>,
    pub branch_phone_number: Option<String>,
    pub branch_address: Option<String>,
}

impl UpdateBranchRequest {
    /// The rules the body breaks, in field order: `branch_name` at least 1 character; `branch_description` at least 1 character.
    pub open spec fn violations(&self) -> Seq<(Seq<char>, Rule)> {
        flag(min_len(self.branch_name@, 1), "branch_name"@, Rule::Length)
            + flag(min_len(self.branch_description@, 1), "branch_description"@, Rule::Length)
    }

    /// Checks the body against its rules.
    pub fn validate(&self) -> (r: Result<(), Vec<FieldError>>)
        ensures
            validation_outcome(r, self.violations()),
    {
        let mut errs: Vec<FieldError> = Vec::new();
        note(check_min_len(&self.branch_name, 1), "branch_name", Rule::Length, &mut errs);
        note(check_min_len(&self.branch_description, 1), "branch_description", Rule::Length, &mut errs);
        assert(errors_view(errs@) =~= self.violations());
        finish(errs)
    }
}

} // verus!
