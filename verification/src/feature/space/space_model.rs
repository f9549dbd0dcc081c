use vstd::prelude::*;

verus! {

/// A new space.
#[derive(Clone, Debug)]
pub struct CreateSpaceRequest {
    pub name: String,
    pub space_thumbnail_id: Option<i32>,
    pub is_public: bool,
    pub description: String,
}

} // verus!
