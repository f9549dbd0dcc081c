use vstd::prelude::*;

use super::branch_model::{CreateBranchRequest, UpdateBranchRequest};
use crate::text::text_view;

verus! {

/// The details of a branch that requests set.
#[derive(Clone, Debug)]
pub struct BranchProfile {
    pub branch_name: String,
    pub branch_description: String,
    pub branch_email: Option<String>,
    pub branch_phone_number: Option<String>,
    pub branch_address: Option<String>,
}

/// The view of a branch's details.
pub open spec fn branch_view(b: BranchProfile) -> (
    Seq<char>,
    Seq<char>,
    Option<Seq<char>>,
    Option<Seq<char>>,
    Option<Seq<char>>,
) {
    (
        b.branch_name@,
        b.branch_description@,
        text_view(b.branch_email),
        text_view(b.branch_phone_number),
        text_view(b.branch_address),
    )
}

/// A copy of an optional text.
fn copy_text(s: &Option<String>) -> (r: Option<String>)
    ensures
        text_view(r) == text_view(*s),
{
    match s {
        Some(v) => Some(v.clone()),
        None => None,
    }
}

impl UpdateBranchRequest {
    /// The branch's details after the update: all five are replaced, an absent contact detail
    /// clearing the stored one.
    pub fn apply_to(&self, branch: &mut BranchProfile)
        ensures
            branch_view(*final(branch)) == (
                self.branch_name@,
                self.branch_description@,
                text_view(self.branch_email),
                text_view(self.branch_phone_number),
                text_view(self.branch_address),
            ),
    {
        branch.branch_name = self.branch_name.clone();
        branch.branch_description = self.branch_description.clone();
        branch.branch_email = copy_text(&self.branch_email);
        branch.branch_phone_number = copy_text(&self.branch_phone_number);
        branch.branch_address = copy_text(&self.branch_address);
    }
}

impl CreateBranchRequest {
    /// The details a new branch starts with.
    pub fn to_profile(&self) -> (r: BranchProfile)
        ensures
            branch_view(r) == (
                self.branch_name@,
                self.branch_description@,
                text_view(self.branch_email),
                text_view(self.branch_phone_number),
                text_view(self.branch_address),
            ),
    {
        BranchProfile {
            branch_name: self.branch_name.clone(),
            branch_description: self.branch_description.clone(),
            branch_email: copy_text(&self.branch_email),
            branch_phone_number: copy_text(&self.branch_phone_number),
            branch_address: copy_text(&self.branch_address),
        }
    }
}

} // verus!
