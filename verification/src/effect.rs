//! What a bank asks the ledger to do once a call has been accepted.

use vstd::prelude::*;
use crate::chain::{AccountAddress, Amount};

verus! {

/// The outcome of an accepted call, for the ledger to carry out together
/// with the state change, or not at all.
#[derive(Clone, Copy, Debug, PartialEq, Eq)]
pub enum Effect {
    /// Keep whatever value came with the call; send nothing.
    Accept,
    /// Send `amount` from the bank to the account `to`.
    Transfer { to: AccountAddress, amount: Amount },
}

impl Effect {
    /// Accept the call and keep its value.
    pub fn accept() -> (effect: Effect)
        ensures
            effect == Effect::Accept,
    {
        Effect::Accept
    }

    /// Send `amount` to `to`.
    pub fn simple_transfer(to: &AccountAddress, amount: Amount) -> (effect: Effect)
        ensures
            effect == (Effect::Transfer { to: *to, amount }),
    {
        Effect::Transfer { to: *to, amount }
    }

    /// How much leaves the bank when the ledger carries the effect out.
    pub open spec fn outgoing(self) -> nat {
        match self {
            Effect::Accept => 0,
            Effect::Transfer { amount, .. } => amount@,
        }
    }
}

} // verus!
