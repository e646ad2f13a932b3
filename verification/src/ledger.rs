//! A deployed bank as the ledger keeps it from call to call: its owner, its
//! state and the value it holds. The ledger books the value and carries out
//! the effects; the bank only answers calls. A rejected call leaves no
//! trace, and an accepted call has its state change and its movement of
//! value recorded together.

use vstd::prelude::*;
use crate::bank::{balance_of_outcome, insert_outcome, smash_outcome, state_after_smash};
use crate::chain::{AccountAddress, Address, Amount, ReceiveContext};
use crate::effect::Effect;
use crate::state::{BankError, DCBBankState};

verus! {

/// One call that the ledger delivers to a bank.
pub enum Call {
    /// Insert `amount`, which comes with the call.
    Insert { sender: Address, amount: Amount },
    /// Smash the bank.
    Smash { sender: Address },
    /// Query the balance.
    BalanceOf { sender: Address },
}

impl Call {
    /// Who issued the call.
    pub open spec fn sender(self) -> Address {
        match self {
            Call::Insert { sender, .. } => sender,
            Call::Smash { sender } => sender,
            Call::BalanceOf { sender } => sender,
        }
    }

    /// The value that comes with the call.
    pub open spec fn attached(self) -> nat {
        match self {
            Call::Insert { amount, .. } => amount@,
            Call::Smash { .. } => 0,
            Call::BalanceOf { .. } => 0,
        }
    }
}

/// The ledger's record of one bank.
pub struct Instance {
    /// The account that created the bank.
    pub owner: AccountAddress,
    /// The bank's own state.
    pub state: DCBBankState,
    /// The value that the bank holds.
    pub balance: nat,
}

impl Instance {
    /// The balance is one that the ledger can hand to the bank.
    pub open spec fn wf(self) -> bool {
        self.balance <= u64::MAX
    }

    /// What the ledger tells the bank about `call`.
    pub open spec fn context(self, call: Call) -> ReceiveContext {
        ReceiveContext {
            owner: self.owner,
            sender: call.sender(),
            self_balance: Amount { micro_ccd: self.balance as u64 },
        }
    }

    /// The bank's answer to `call`.
    pub open spec fn outcome(self, call: Call) -> Result<Effect, BankError> {
        match call {
            Call::Insert { .. } => insert_outcome(self.state),
            Call::Smash { .. } => smash_outcome(self.context(call), self.state),
            Call::BalanceOf { .. } => balance_of_outcome(self.context(call)),
        }
    }

    /// The state in which the bank leaves the call.
    pub open spec fn state_after(self, call: Call) -> DCBBankState {
        match call {
            Call::Smash { .. } => state_after_smash(self.context(call), self.state),
            _ => self.state,
        }
    }

    /// The record after `call`. A rejected call changes nothing. An accepted
    /// call takes the bank to its new state, adds the value that came with
    /// the call and takes away what the effect sends out.
    pub open spec fn after(self, call: Call) -> Instance {
        match self.outcome(call) {
            Ok(effect) => Instance {
                owner: self.owner,
                state: self.state_after(call),
                balance: (self.balance + call.attached() - effect.outgoing()) as nat,
            },
            Err(_) => self,
        }
    }

    /// The record after `calls`, delivered one after the other.
    pub open spec fn after_all(self, calls: Seq<Call>) -> Instance
        decreases calls.len(),
    {
        if calls.len() == 0 {
            self
        } else {
            self.after_all(calls.drop_last()).after(calls.last())
        }
    }
}

/// The sum of the values that come with `calls`.
pub open spec fn total_attached(calls: Seq<Call>) -> nat
    decreases calls.len(),
{
    if calls.len() == 0 {
        0
    } else {
        total_attached(calls.drop_last()) + calls.last().attached()
    }
}

/// Delivering one call more: the record after the first `k + 1` calls is the
/// record after the first `k`, after call `k`.
pub proof fn lemma_one_more(bank: Instance, calls: Seq<Call>, k: int)
    requires
        0 <= k < calls.len(),
    ensures
        bank.after_all(calls.take(k + 1)) == bank.after_all(calls.take(k)).after(calls[k]),
        total_attached(calls.take(k + 1)) == total_attached(calls.take(k)) + calls[k].attached(),
{
    assert(calls.take(k + 1).drop_last() =~= calls.take(k));
    assert(calls.take(k + 1).last() == calls[k]);
}

/// A rejected call changes neither the state nor the balance.
pub proof fn rejected_call_changes_nothing(bank: Instance, call: Call)
    requires
        bank.outcome(call) is Err,
    ensures
        bank.after(call) == bank,
{
}

/// Smashing and querying are for the owner alone: from anyone else either
/// call is rejected as unauthorized, whatever the state, and changes
/// neither the state nor the balance.
pub proof fn stranger_is_turned_away(bank: Instance, call: Call)
    requires
        call is Smash || call is BalanceOf,
        !call.sender().matches(bank.owner),
    ensures
        bank.outcome(call) == Err::<Effect, BankError>(BankError::UnauthorizedError),
        bank.after(call) == bank,
{
}

/// No call changes the owner, and the only change of state there is leads
/// from intact to smashed, through an accepted smash.
pub proof fn only_a_smash_changes_the_state(bank: Instance, call: Call)
    ensures
        bank.after(call).owner == bank.owner,
        bank.after(call).state != bank.state ==> {
            &&& call is Smash
            &&& bank.outcome(call) is Ok
            &&& bank.state == DCBBankState::Intact
            &&& bank.after(call).state == DCBBankState::Smashed
        },
{
}

/// An accepted smash sends the owner all that the bank holds and leaves the
/// bank smashed and empty.
pub proof fn smash_takes_everything(bank: Instance, call: Call)
    requires
        bank.wf(),
        call is Smash,
        bank.outcome(call) is Ok,
    ensures
        bank.outcome(call) == Ok::<Effect, BankError>(
            Effect::Transfer { to: bank.owner, amount: Amount { micro_ccd: bank.balance as u64 } },
        ),
        bank.outcome(call)->Ok_0.outgoing() == bank.balance,
        bank.after(call).state == DCBBankState::Smashed,
        bank.after(call).balance == 0,
{
}

/// A balance query by the owner is answered like a smash, by sending the
/// owner all that the bank holds, but leaves the bank in the state it was
/// in.
pub proof fn balance_query_takes_everything(bank: Instance, call: Call)
    requires
        bank.wf(),
        call is BalanceOf,
        call.sender().matches(bank.owner),
    ensures
        bank.outcome(call) == Ok::<Effect, BankError>(
            Effect::Transfer { to: bank.owner, amount: Amount { micro_ccd: bank.balance as u64 } },
        ),
        bank.after(call).state == bank.state,
        bank.after(call).balance == 0,
{
}

/// A smashed bank stays smashed, whatever calls arrive.
pub proof fn smashed_is_final(bank: Instance, calls: Seq<Call>)
    requires
        bank.state == DCBBankState::Smashed,
    ensures
        bank.after_all(calls).state == DCBBankState::Smashed,
    decreases calls.len(),
{
    if calls.len() > 0 {
        smashed_is_final(bank, calls.drop_last());
    }
}

/// Once call `i` has smashed the bank, the bank is smashed when any later
/// call `j` arrives.
proof fn lemma_smashed_since(bank: Instance, calls: Seq<Call>, i: int, j: int)
    requires
        0 <= i < j <= calls.len(),
        calls[i] is Smash,
        bank.after_all(calls.take(i)).outcome(calls[i]) is Ok,
    ensures
        bank.after_all(calls.take(j)).state == DCBBankState::Smashed,
    decreases j - i,
{
    lemma_one_more(bank, calls, j - 1);
    if j > i + 1 {
        lemma_smashed_since(bank, calls, i, j - 1);
    }
}

/// The state changes at most once: after a call that changed it, no later
/// call changes it again.
pub proof fn state_changes_once(bank: Instance, calls: Seq<Call>, i: int, j: int)
    requires
        0 <= i < j < calls.len(),
        bank.after_all(calls.take(i + 1)).state != bank.after_all(calls.take(i)).state,
    ensures
        bank.after_all(calls.take(j + 1)).state == bank.after_all(calls.take(j)).state,
{
    lemma_one_more(bank, calls, i);
    only_a_smash_changes_the_state(bank.after_all(calls.take(i)), calls[i]);
    lemma_smashed_since(bank, calls, i, j);
    lemma_smashed_since(bank, calls, i, j + 1);
}

/// After an accepted smash every later insertion is rejected, because the
/// bank is smashed, and changes neither the state nor the balance.
pub proof fn no_insert_after_smash(bank: Instance, calls: Seq<Call>, i: int, j: int)
    requires
        0 <= i < j < calls.len(),
        calls[i] is Smash,
        bank.after_all(calls.take(i)).outcome(calls[i]) is Ok,
        calls[j] is Insert,
    ensures
        bank.after_all(calls.take(j)).outcome(calls[j]) == Err::<Effect, BankError>(
            BankError::InvalidStateError,
        ),
        bank.after_all(calls.take(j + 1)) == bank.after_all(calls.take(j)),
{
    lemma_smashed_since(bank, calls, i, j);
    lemma_one_more(bank, calls, j);
}

/// After an accepted smash every later smash is rejected and changes
/// nothing. The sender is checked before the state: the owner is told that
/// the bank is smashed already, anyone else that the call is not theirs to
/// make.
pub proof fn no_second_smash(bank: Instance, calls: Seq<Call>, i: int, j: int)
    requires
        0 <= i < j < calls.len(),
        calls[i] is Smash,
        bank.after_all(calls.take(i)).outcome(calls[i]) is Ok,
        calls[j] is Smash,
    ensures
        bank.after_all(calls.take(j)).outcome(calls[j]) is Err,
        calls[j].sender().matches(bank.owner) ==> bank.after_all(calls.take(j)).outcome(calls[j])
            == Err::<Effect, BankError>(BankError::InvalidStateError),
        !calls[j].sender().matches(bank.owner) ==> bank.after_all(calls.take(j)).outcome(calls[j])
            == Err::<Effect, BankError>(BankError::UnauthorizedError),
        bank.after_all(calls.take(j + 1)) == bank.after_all(calls.take(j)),
{
    lemma_smashed_since(bank, calls, i, j);
    lemma_one_more(bank, calls, j);
    lemma_owner_is_kept(bank, calls.take(j));
}

/// The owner never changes.
pub proof fn lemma_owner_is_kept(bank: Instance, calls: Seq<Call>)
    ensures
        bank.after_all(calls).owner == bank.owner,
    decreases calls.len(),
{
    if calls.len() > 0 {
        lemma_owner_is_kept(bank, calls.drop_last());
    }
}

/// Insertions into an intact bank: after the first `k` of them the bank is
/// still intact and holds what it held before and the sum of the `k`
/// amounts.
proof fn lemma_inserted_so_far(bank: Instance, calls: Seq<Call>, k: int)
    requires
        bank.state == DCBBankState::Intact,
        forall|i: int| 0 <= i < calls.len() ==> calls[i] is Insert,
        0 <= k <= calls.len(),
    ensures
        bank.after_all(calls.take(k)).state == DCBBankState::Intact,
        bank.after_all(calls.take(k)).balance == bank.balance + total_attached(calls.take(k)),
    decreases k,
{
    if k > 0 {
        lemma_inserted_so_far(bank, calls, k - 1);
        lemma_one_more(bank, calls, k - 1);
    }
}

/// The sum of what comes with the first `i` calls is at most the sum of
/// what comes with the first `j`, for `i` up to `j`.
proof fn lemma_total_grows(calls: Seq<Call>, i: int, j: int)
    requires
        0 <= i <= j <= calls.len(),
    ensures
        total_attached(calls.take(i)) <= total_attached(calls.take(j)),
    decreases j - i,
{
    if i < j {
        lemma_total_grows(calls, i, j - 1);
        assert(calls.take(j).drop_last() =~= calls.take(j - 1));
    }
}

/// While only insertions arrive at an intact bank, each of them is
/// accepted, the bank stays intact, its balance never goes down, and what
/// it holds in the end is what it held before and the sum of the amounts
/// inserted.
pub proof fn insertions_add_up(bank: Instance, calls: Seq<Call>)
    requires
        bank.state == DCBBankState::Intact,
        forall|i: int| 0 <= i < calls.len() ==> calls[i] is Insert,
    ensures
        forall|k: int|
            0 <= k < calls.len() ==> #[trigger] bank.after_all(calls.take(k)).outcome(calls[k])
                == Ok::<Effect, BankError>(Effect::Accept),
        forall|k: int|
            0 <= k <= calls.len() ==> (#[trigger] bank.after_all(calls.take(k))).state
                == DCBBankState::Intact,
        forall|i: int, j: int|
            0 <= i <= j <= calls.len() ==> (#[trigger] bank.after_all(calls.take(i))).balance <= (
            #[trigger] bank.after_all(calls.take(j))).balance,
        bank.after_all(calls).balance == bank.balance + total_attached(calls),
{
    assert forall|k: int| 0 <= k <= calls.len() implies (#[trigger] bank.after_all(
        calls.take(k),
    )).state == DCBBankState::Intact by {
        lemma_inserted_so_far(bank, calls, k);
    }
    assert forall|i: int, j: int| 0 <= i <= j <= calls.len() implies (#[trigger] bank.after_all(
        calls.take(i),
    )).balance <= (#[trigger] bank.after_all(calls.take(j))).balance by {
        lemma_inserted_so_far(bank, calls, i);
        lemma_inserted_so_far(bank, calls, j);
        lemma_total_grows(calls, i, j);
    }
    lemma_inserted_so_far(bank, calls, calls.len() as int);
    assert(calls.take(calls.len() as int) =~= calls);
}

} // verus!
