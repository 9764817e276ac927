//! What the builders of the endpoints have in common.

use vstd::prelude::*;
use vstd::string::StringExecFns;

verus! {

/// Why a builder could not build its endpoint.
#[derive(Debug, Clone, Copy)]
pub enum BuilderError {
    /// A field that the endpoint needs was never set. Holds the field's name.
    UninitializedField(&'static str),
}

/// The message for a field that was never set.
pub open spec fn uninitialized(field: Seq<char>) -> Seq<char> {
    "`"@ + field + "` must be initialized"@
}

impl BuilderError {
    /// The name of the field that was never set.
    pub open spec fn field(&self) -> Seq<char> {
        match self {
            BuilderError::UninitializedField(name) => name@,
        }
    }

    /// The error as a message for the user.
    pub fn to_string(&self) -> (message: String)
        ensures
            message@ == uninitialized(self.field()),
    {
        match self {
            BuilderError::UninitializedField(name) => {
                let mut message = String::from_str("`");
                message.append(name);
                message.append("` must be initialized");
                message
            },
        }
    }
}

} // verus!
