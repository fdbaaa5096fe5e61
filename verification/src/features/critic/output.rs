use vstd::prelude::*;

use crate::text::prefixed;

verus! {

/// Errors of the critic repository.
#[derive(Debug)]
pub enum RepositoryError {
    Internal(String),
}

impl RepositoryError {
    pub open spec fn message_spec(&self) -> Seq<char> {
        match self {
            RepositoryError::Internal(s) => "Critic repository: "@ + s@,
        }
    }

    /// The text this error displays.
    pub fn message(&self) -> (r: String)
        ensures
            r@ == self.message_spec(),
    {
        match self {
            RepositoryError::Internal(s) => prefixed("Critic repository: ", s.as_str()),
        }
    }
}

} // verus!
