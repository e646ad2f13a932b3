//! The calls that a deployed bank answers: insert, smash, and the balance
//! query.

use vstd::prelude::*;
use crate::chain::{Amount, ReceiveContext};
use crate::concordium::matches_account;
use crate::effect::Effect;
use crate::state::{BankError, DCBBankState};

verus! {

/// The answer to an insertion: accepted while the bank is intact, whoever
/// sends it and whatever the amount.
pub open spec fn insert_outcome(state: DCBBankState) -> Result<Effect, BankError> {
    if state == DCBBankState::Intact {
        Ok(Effect::Accept)
    } else {
        Err(BankError::InvalidStateError)
    }
}

/// The answer to a smash. The sender is checked first, the state second;
/// the owner of an intact bank is sent everything the bank holds.
pub open spec fn smash_outcome(ctx: ReceiveContext, state: DCBBankState) -> Result<
    Effect,
    BankError,
> {
    if !ctx.sender.matches(ctx.owner) {
        Err(BankError::UnauthorizedError)
    } else if state != DCBBankState::Intact {
        Err(BankError::InvalidStateError)
    } else {
        Ok(Effect::Transfer { to: ctx.owner, amount: ctx.self_balance })
    }
}

/// The state that a smash leaves: smashed if it was accepted, else as before.
pub open spec fn state_after_smash(ctx: ReceiveContext, state: DCBBankState) -> DCBBankState {
    if smash_outcome(ctx, state) is Ok {
        DCBBankState::Smashed
    } else {
        state
    }
}

/// The answer to a balance query. Only the sender is checked; the owner is
/// sent everything the bank holds, in whatever state the bank is.
pub open spec fn balance_of_outcome(ctx: ReceiveContext) -> Result<Effect, BankError> {
    if !ctx.sender.matches(ctx.owner) {
        Err(BankError::UnauthorizedError)
    } else {
        Ok(Effect::Transfer { to: ctx.owner, amount: ctx.self_balance })
    }
}

/// Insert some value into the bank; anyone may. The value itself is kept by
/// the ledger, so an intact bank only has to accept.
pub fn dcb_insert(_ctx: &ReceiveContext, _amount: Amount, state: &mut DCBBankState) -> (res: Result<
    Effect,
    BankError,
>)
    ensures
        res == insert_outcome(*old(state)),
        res is Ok <==> *old(state) == DCBBankState::Intact,
        *final(state) == *old(state),
{
    if *state != DCBBankState::Intact {
        return Err(BankError::InvalidStateError);
    }
    Ok(Effect::accept())
}

/// Smash the bank and send all it holds to its owner; only the owner may,
/// and only once.
pub fn dcb_smash(ctx: &ReceiveContext, state: &mut DCBBankState) -> (res: Result<Effect, BankError>)
    ensures
        res == smash_outcome(*ctx, *old(state)),
        res is Ok <==> ctx.sender.matches(ctx.owner) && *old(state) == DCBBankState::Intact,
        res is Ok ==> res->Ok_0.outgoing() == ctx.self_balance@,
        *final(state) == state_after_smash(*ctx, *old(state)),
        res is Ok ==> *final(state) == DCBBankState::Smashed,
        res is Err ==> *final(state) == *old(state),
{
    let owner = ctx.owner();
    let sender = ctx.sender();
    if !matches_account(&sender, &owner) {
        return Err(BankError::UnauthorizedError);
    }
    if *state != DCBBankState::Intact {
        return Err(BankError::InvalidStateError);
    }
    *state = DCBBankState::Smashed;
    let balance = ctx.self_balance();
    Ok(Effect::simple_transfer(&owner, balance))
}

/// Query the balance; only the owner may. The query is answered by sending
/// the whole balance to the owner, and leaves the state as it is.
pub fn dcb_balance_of(ctx: &ReceiveContext, state: &mut DCBBankState) -> (res: Result<
    Effect,
    BankError,
>)
    ensures
        res == balance_of_outcome(*ctx),
        res is Ok <==> ctx.sender.matches(ctx.owner),
        *final(state) == *old(state),
{
    let owner = ctx.owner();
    let sender = ctx.sender();
    if !matches_account(&sender, &owner) {
        return Err(BankError::UnauthorizedError);
    }
    let balance = ctx.self_balance();
    Ok(Effect::simple_transfer(&owner, balance))
}

} // verus!
