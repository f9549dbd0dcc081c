use vstd::prelude::*;

use crate::validation::{
    check_min_len, errors_view, finish, flag, min_len, note, validation_outcome, FieldError, Rule,
};

verus! {

/// A password change: the current password and the new one.
#[derive(Clone, Debug)]
pub struct ChangePasswordRequest {
    pub current_password: String,
    pub new_password: String,
}

impl ChangePasswordRequest {
    /// The rules the body breaks, in field order: `current_password` at least 7 characters; `new_password` at least 7 characters.
    pub open spec fn violations(&self) -> Seq<(Seq<char>, Rule)> {
        flag(min_len(self.current_password@, 7), "current_password"@, Rule::Length)
            + flag(min_len(self.new_password@, 7), "new_password"@, Rule::Length)
    }

    /// Checks the body against its rules.
    pub fn validate(&self) -> (r: Result<(), Vec<FieldError>>)
        ensures
            validation_outcome(r, self.violations()),
    {
        let mut errs: Vec<FieldError> = Vec::new();
        note(check_min_len(&self.current_password, 7), "current_password", Rule::Length, &mut errs);
        note(check_min_len(&self.new_password, 7), "new_password", Rule::Length, &mut errs);
        assert(errors_view(errs@) =~= self.violations());
        finish(errs)
    }
}

} // verus!
