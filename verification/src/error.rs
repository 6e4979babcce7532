//! The errors that the vault raises itself.

use vstd::prelude::*;

verus! {

/// Why an operation was refused.
#[derive(Clone, Copy, Debug, PartialEq, Eq, Structural)]
pub enum ErrorCode {
    /// The batch around the crank holds more than fee adjustments before it,
    /// or anything at all after it.
    DisrespectfulCrank,
    /// The reward mint was to be registered by another than the administrator.
    NotAdmin,
}

impl ErrorCode {
    /// What the caller is told.
    pub open spec fn spec_message(self) -> Seq<char> {
        match self {
            ErrorCode::DisrespectfulCrank => "You must crank with respect brother..."@,
            ErrorCode::NotAdmin => "Only the administrator registers the reward mint"@,
        }
    }

    /// What the caller is told.
    pub fn message(&self) -> (text: String)
        ensures
            text@ == self.spec_message(),
    {
        match self {
            ErrorCode::DisrespectfulCrank => String::from_str(
                "You must crank with respect brother...",
            ),
            ErrorCode::NotAdmin => String::from_str(
                "Only the administrator registers the reward mint",
            ),
        }
    }
}

} // verus!
