use vstd::prelude::*;

use crate::text::prefixed;

verus! {

/// Errors of the database health port.
#[derive(Debug)]
pub enum PortError {
    Internal(String),
}

impl PortError {
    pub open spec fn message_spec(&self) -> Seq<char> {
        match self {
            PortError::Internal(s) => "Base: "@ + s@,
        }
    }

    /// The text this error displays.
    pub fn message(&self) -> (r: String)
        ensures
            r@ == self.message_spec(),
    {
        match self {
            PortError::Internal(s) => prefixed("Base: ", s.as_str()),
        }
    }
}

} // verus!
