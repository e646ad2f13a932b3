//! How a bank starts. A plain bank starts intact. Other banks are created
//! with a parameter, and what the parameter holds decides whether they start
//! intact or already smashed.

use vstd::prelude::*;
use crate::concordium::{flag_of, integers_of, nicknames_of, read_flag, read_integers, read_nicknames};
use crate::state::{BankError, DCBBankState};

verus! {

/// The nickname that lets a bank start intact.
pub open spec fn expected_nickname() -> Seq<char> {
    "UserFullDetails"@
}

/// The state for a flag: intact for `true`, smashed for `false`.
pub open spec fn flag_state(flag: bool) -> DCBBankState {
    if flag {
        DCBBankState::Intact
    } else {
        DCBBankState::Smashed
    }
}

/// The state for three integers: intact where the second is not zero.
pub open spec fn integers_state(integers: Seq<u8>) -> DCBBankState {
    if integers[1] > 0 {
        DCBBankState::Intact
    } else {
        DCBBankState::Smashed
    }
}

/// The state for three nicknames: intact where the second is the expected
/// one.
pub open spec fn nicknames_state(nicknames: Seq<Seq<char>>) -> DCBBankState {
    if nicknames[1] == expected_nickname() {
        DCBBankState::Intact
    } else {
        DCBBankState::Smashed
    }
}

/// Set up a plain bank: it takes no parameter and always starts intact.
pub fn dcb_init() -> (res: Result<DCBBankState, BankError>)
    ensures
        res == Ok::<DCBBankState, BankError>(DCBBankState::Intact),
{
    Ok(DCBBankState::Intact)
}

/// The state of a new bank whose parameter held `flag`.
pub fn state_for_flag(flag: bool) -> (state: DCBBankState)
    ensures
        state == flag_state(flag),
{
    if flag {
        DCBBankState::Intact
    } else {
        DCBBankState::Smashed
    }
}

/// Set up a bank from a parameter that starts with a flag.
pub fn dcb_init_flag(parameter: &[u8]) -> (res: Result<DCBBankState, BankError>)
    ensures
        res == match flag_of(parameter@) {
            Some(flag) => Ok::<DCBBankState, BankError>(flag_state(flag)),
            None => Err(BankError::DecodeError),
        },
{
    match read_flag(parameter) {
        Ok(tokens) => Ok(state_for_flag(tokens)),
        Err(_) => Err(BankError::DecodeError),
    }
}

/// The state of a new bank whose parameter held `integers`.
pub fn state_for_integers(integers: &[u8; 3]) -> (state: DCBBankState)
    ensures
        state == integers_state(integers@),
{
    if integers[1] > 0 {
        DCBBankState::Intact
    } else {
        DCBBankState::Smashed
    }
}

/// Set up a bank from a parameter that starts with three integers.
pub fn dcb_init_integers(parameter: &[u8]) -> (res: Result<DCBBankState, BankError>)
    ensures
        res == match integers_of(parameter@) {
            Some(integers) => Ok::<DCBBankState, BankError>(integers_state(integers)),
            None => Err(BankError::DecodeError),
        },
{
    match read_integers(parameter) {
        Ok(tokens) => Ok(state_for_integers(&tokens)),
        Err(_) => Err(BankError::DecodeError),
    }
}

/// The state of a new bank whose parameter held `nicknames`.
pub fn state_for_nicknames(nicknames: &[String; 3]) -> (state: DCBBankState)
    ensures
        state == nicknames_state(nicknames.deep_view()),
{
    let apple: String = "UserFullDetails".to_owned();
    if nicknames[1].eq(&apple) {
        DCBBankState::Intact
    } else {
        DCBBankState::Smashed
    }
}

/// Set up a bank from a parameter that starts with three nicknames.
pub fn dcb_init_nicknames(parameter: &[u8]) -> (res: Result<DCBBankState, BankError>)
    ensures
        res == match nicknames_of(parameter@) {
            Some(nicknames) => Ok::<DCBBankState, BankError>(nicknames_state(nicknames)),
            None => Err(BankError::DecodeError),
        },
{
    match read_nicknames(parameter) {
        Ok(tokens) => Ok(state_for_nicknames(&tokens)),
        Err(_) => Err(BankError::DecodeError),
    }
}

} // verus!
