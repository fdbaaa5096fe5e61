use vstd::prelude::*;

use crate::text::prefixed;

verus! {

/// Errors of the database health use case.
#[derive(Debug)]
pub enum UseCaseError {
    Internal(String),
}

impl UseCaseError {
    pub open spec fn message_spec(&self) -> Seq<char> {
        match self {
            UseCaseError::Internal(s) => "Base service: "@ + s@,
        }
    }

    /// The text this error displays.
    pub fn message(&self) -> (r: String)
        ensures
            r@ == self.message_spec(),
    {
        match self {
            UseCaseError::Internal(s) => prefixed("Base service: ", s.as_str()),
        }
    }
}

} // verus!
