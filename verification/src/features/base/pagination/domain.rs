use vstd::prelude::*;

verus! {

/// A game result item returned by paginated queries, from the internal or the
/// external repository.
#[derive(Debug, Clone)]
pub struct GameResultItem {
    pub id: u128,
    pub external_id: Option<i64>,
    pub name: String,
}

} // verus!
