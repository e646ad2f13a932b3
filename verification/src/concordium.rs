//! The calls that the bank makes into `concordium_std`. Their contracts are
//! taken from that crate's source and are believed, not proved.

use vstd::prelude::*;
use crate::chain::{AccountAddress, Address};

verus! {

/// `concordium_std::ParseError`: the one error that reading a value from
/// bytes can give. It carries no information.
#[verifier::external_type_specification]
#[verifier::external_body]
pub struct ExParseError(concordium_std::ParseError);

/// `concordium_std::Address::matches_account`: true exactly when the address
/// is an account address whose 32 bytes are those of `account`.
#[verifier::external_body]
pub(crate) fn matches_account(sender: &Address, account: &AccountAddress) -> (r: bool)
    ensures
        r == sender.matches(*account),
{
    let sender = match sender {
        Address::Account(a) => concordium_std::Address::Account(concordium_std::AccountAddress(a.0)),
        Address::Contract(c) => concordium_std::Address::Contract(
            concordium_std::ContractAddress::new(c.index, c.subindex),
        ),
    };
    sender.matches_account(&concordium_std::AccountAddress(account.0))
}

/// The flag at the start of `bytes`: a first byte 0 is `false`, a first byte
/// 1 is `true`, and no other byte, nor an empty input, is a flag. Bytes
/// after the first are not looked at.
pub open spec fn flag_of(bytes: Seq<u8>) -> Option<bool> {
    if bytes.len() >= 1 && bytes[0] == 0 {
        Some(false)
    } else if bytes.len() >= 1 && bytes[0] == 1 {
        Some(true)
    } else {
        None
    }
}

/// The three integers at the start of `bytes`: its first three bytes, if it
/// has that many. Bytes after the third are not looked at.
pub open spec fn integers_of(bytes: Seq<u8>) -> Option<Seq<u8>> {
    if bytes.len() >= 3 {
        Some(bytes.subrange(0, 3))
    } else {
        None
    }
}

/// The three texts that `concordium_std` reads from the start of `bytes`, or
/// `None` where it reads none. Each text is a count of bytes, as a
/// little-endian `u32`, followed by that many bytes of UTF-8.
pub uninterp spec fn nicknames_of(bytes: Seq<u8>) -> Option<Seq<Seq<char>>>;

/// `concordium_std::from_bytes` for a `bool`: reads one byte and gives
/// `false` for 0, `true` for 1 and an error for anything else or for an
/// empty input.
#[verifier::external_body]
pub(crate) fn read_flag(bytes: &[u8]) -> (r: Result<bool, concordium_std::ParseError>)
    ensures
        match r {
            Ok(flag) => flag_of(bytes@) == Some(flag),
            Err(_) => flag_of(bytes@) is None,
        },
{
    concordium_std::from_bytes::<bool>(bytes)
}

/// `concordium_std::from_bytes` for a `[u8; 3]`: reads three bytes, one after
/// the other, and gives an error where the input has fewer.
#[verifier::external_body]
pub(crate) fn read_integers(bytes: &[u8]) -> (r: Result<[u8; 3], concordium_std::ParseError>)
    ensures
        match r {
            Ok(integers) => integers_of(bytes@) == Some(integers@),
            Err(_) => integers_of(bytes@) is None,
        },
{
    concordium_std::from_bytes::<[u8; 3]>(bytes)
}

/// `concordium_std::from_bytes` for a `[String; 3]`: what it reads depends on
/// the bytes alone, and is not spelled out here.
#[verifier::external_body]
pub(crate) fn read_nicknames(bytes: &[u8]) -> (r: Result<[String; 3], concordium_std::ParseError>)
    ensures
        match r {
            Ok(nicknames) => nicknames_of(bytes@) == Some(nicknames.deep_view()),
            Err(_) => nicknames_of(bytes@) is None,
        },
{
    concordium_std::from_bytes::<[String; 3]>(bytes)
}

} // verus!
