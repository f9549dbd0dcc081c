use vstd::prelude::*;

use crate::validation::{
    check_exact_len, errors_view, exact_len, finish, flag, note, validation_outcome, FieldError,
    Rule,
};

verus! {

/// A permission to grant to a user; both are record ids.
#[derive(Clone, Debug)]
pub struct AssignPermissionRequest {
    pub user_id: String,
    pub permission_id: String,
}

impl AssignPermissionRequest {
    /// The rules the body breaks, in field order: `user_id` exactly 24 characters; `permission_id` exactly 24 characters.
    pub open spec fn violations(&self) -> Seq<(Seq<char>, Rule)> {
        flag(exact_len(self.user_id@, 24), "user_id"@, Rule::Length)
            + flag(exact_len(self.permission_id@, 24), "permission_id"@, Rule::Length)
    }

    /// Checks the body against its rules.
    pub fn validate(&self) -> (r: Result<(), Vec<FieldError>>)
        ensures
            validation_outcome(r, self.violations()),
    {
        let mut errs: Vec<FieldError> = Vec::new();
        note(check_exact_len(&self.user_id, 24), "user_id", Rule::Length, &mut errs);
        note(check_exact_len(&self.permission_id, 24), "permission_id", Rule::Length, &mut errs);
        assert(errors_view(errs@) =~= self.violations());
        finish(errs)
    }
}

} // verus!
