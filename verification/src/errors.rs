//! The failure reasons a lobby operation can return.

use vstd::prelude::*;

verus! {

/// Why an operation was rejected. Every rejection is an ordinary, expected
/// outcome of concurrent multi-party interaction and leaves the stored state
/// unchanged.
#[derive(Clone, Copy, Debug, PartialEq, Eq, Structural)]
pub enum LobbyError {
    /// The lobby code is not 4 to 12 ASCII letters or digits.
    InvalidCode,
    /// A lobby with the same normalized code already exists.
    AlreadyExists,
    /// No lobby with the given code exists.
    NotFound,
    /// Both slots are already occupied by other participants.
    Full,
    /// The caller occupies neither slot, where membership is required.
    NotMember,
    /// A selection or song value is blank.
    EmptyValue,
    /// A start was attempted before both occupants were ready with a song set.
    NotReady,
}

} // verus!
