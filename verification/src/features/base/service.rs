use vstd::prelude::*;

use super::{PortError, UseCaseError};

verus! {

impl UseCaseError {
    /// A port failure, reported by its displayed text.
    pub fn from_port(e: &PortError) -> (r: UseCaseError)
        ensures
            r matches UseCaseError::Internal(s) && s@ == e.message_spec(),
    {
        UseCaseError::Internal(e.message())
    }
}

} // verus!
