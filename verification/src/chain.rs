//! The values that the ledger hands to a bank with every call: who owns it,
//! who is calling, and how much it holds.

use vstd::prelude::*;

verus! {

/// Address of an account, as raw bytes.
#[derive(Clone, Copy, Debug, PartialEq, Eq)]
pub struct AccountAddress(pub [u8; 32]);

impl View for AccountAddress {
    type V = Seq<u8>;

    open spec fn view(&self) -> Seq<u8> {
        self.0@
    }
}

/// Address of a contract instance.
#[derive(Clone, Copy, Debug, PartialEq, Eq)]
pub struct ContractAddress {
    pub index: u64,
    pub subindex: u64,
}

/// Whoever can issue a call: an account or another contract.
#[derive(Clone, Copy, Debug, PartialEq, Eq)]
pub enum Address {
    Account(AccountAddress),
    Contract(ContractAddress),
}

impl Address {
    /// The address is that of `account`: it is an account address with the
    /// same 32 bytes. A contract address matches no account.
    pub open spec fn matches(self, account: AccountAddress) -> bool {
        match self {
            Address::Account(mine) => mine@ == account@,
            Address::Contract(_) => false,
        }
    }
}

/// An amount of the ledger's native token, in its smallest unit.
#[derive(Clone, Copy, Debug, PartialEq, Eq)]
pub struct Amount {
    pub micro_ccd: u64,
}

impl View for Amount {
    type V = nat;

    open spec fn view(&self) -> nat {
        self.micro_ccd as nat
    }
}

impl Amount {
    /// The amount of `micro_ccd` smallest units.
    pub fn from_micro_ccd(micro_ccd: u64) -> (amount: Amount)
        ensures
            amount.micro_ccd == micro_ccd,
    {
        Amount { micro_ccd }
    }
}

/// What a bank learns about the call it is handling.
#[derive(Clone, Copy, Debug, PartialEq, Eq)]
pub struct ReceiveContext {
    /// The account that created the bank. It never changes.
    pub owner: AccountAddress,
    /// Who issued this call.
    pub sender: Address,
    /// What the bank holds when the call arrives.
    pub self_balance: Amount,
}

impl ReceiveContext {
    /// The account that created the bank.
    pub fn owner(&self) -> (owner: AccountAddress)
        ensures
            owner == self.owner,
    {
        self.owner
    }

    /// Who issued this call.
    pub fn sender(&self) -> (sender: Address)
        ensures
            sender == self.sender,
    {
        self.sender
    }

    /// What the bank holds when the call arrives.
    pub fn self_balance(&self) -> (balance: Amount)
        ensures
            balance == self.self_balance,
    {
        self.self_balance
    }
}

} // verus!
