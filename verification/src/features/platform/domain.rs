use vstd::prelude::*;

verus! {

/// A gaming platform.
#[derive(Debug, Clone)]
pub struct Platform {
    pub id: u128,
    pub external_id: Option<u64>,
    pub name: String,
    pub generation: Option<u8>,
}

} // verus!
