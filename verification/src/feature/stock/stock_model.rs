use vstd::prelude::*;

use crate::validation::{
    check_min_len, errors_view, finish, flag, min_len, note, validation_outcome, FieldError, Rule,
};

verus! {

/// A stock change of a product.
#[derive(Clone, Debug)]
pub struct UpdateStockRequest {
    pub product_id: String,
    pub stock: i64,
}

impl UpdateStockRequest {
    /// The rules the body breaks, in field order: `product_id` at least 1 character.
    pub open spec fn violations(&self) -> Seq<(Seq<char>, Rule)> {
        flag(min_len(self.product_id@, 1), "product_id"@, Rule::Length)
    }

    /// Checks the body against its rules.
    pub fn validate(&self) -> (r: Result<(), Vec<FieldError>>)
        ensures
            validation_outcome(r, self.violations()),
    {
        let mut errs: Vec<FieldError> = Vec::new();
        note(check_min_len(&self.product_id, 1), "product_id", Rule::Length, &mut errs);
        assert(errors_view(errs@) =~= self.violations());
        finish(errs)
    }
}

} // verus!
