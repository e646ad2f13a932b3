//! The lifecycle of a bank and the ways a call to it can fail.

use vstd::prelude::*;

verus! {

/// The whole persistent state of a bank.
#[derive(Clone, Copy, Debug, PartialEq, Eq, Structural)]
pub enum DCBBankState {
    /// Alive and well: value may be inserted.
    Intact,
    /// Emptied by its owner: nothing may be inserted any more.
    Smashed,
}

/// Why a call was rejected. A rejected call changes nothing.
#[derive(Clone, Copy, Debug, PartialEq, Eq, Structural)]
pub enum BankError {
    /// The parameter bytes do not hold a value of the expected shape.
    DecodeError,
    /// The sender is not the owner, and only the owner may make this call.
    UnauthorizedError,
    /// The bank has been smashed already.
    InvalidStateError,
}

} // verus!
