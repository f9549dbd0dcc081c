use vstd::prelude::*;

verus! {

/// The file asked for.
#[derive(Clone, Debug)]
pub struct QueryGetFile {
    pub file_name: Option<String>,
}

} // verus!
