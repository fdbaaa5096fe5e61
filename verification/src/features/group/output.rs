use vstd::prelude::*;

use crate::text::prefixed;

verus! {

/// Errors of the groups database.
#[derive(Debug)]
pub enum LocalRepositoryError {
    Internal(String),
}

impl LocalRepositoryError {
    pub open spec fn message_spec(&self) -> Seq<char> {
        match self {
            LocalRepositoryError::Internal(s) => "Recipe local repository: "@ + s@,
        }
    }

    /// The text this error displays.
    pub fn message(&self) -> (r: String)
        ensures
            r@ == self.message_spec(),
    {
        match self {
            LocalRepositoryError::Internal(s) => prefixed("Recipe local repository: ", s.as_str()),
        }
    }
}

} // verus!
