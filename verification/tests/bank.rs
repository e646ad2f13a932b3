use piggy_bank::bank::{dcb_balance_of, dcb_insert, dcb_smash};
use piggy_bank::chain::{AccountAddress, Address, Amount, ContractAddress, ReceiveContext};
use piggy_bank::effect::Effect;
use piggy_bank::init::{dcb_init, dcb_init_flag};
use piggy_bank::state::{BankError, DCBBankState};

fn account(tag: u8) -> AccountAddress {
    AccountAddress([tag; 32])
}

fn context(owner: AccountAddress, sender: Address, balance: u64) -> ReceiveContext {
    ReceiveContext { owner, sender, self_balance: Amount::from_micro_ccd(balance) }
}

#[test]
fn insert_into_intact_bank_is_accepted() {
    let owner = account(0);
    let ctx = context(owner, Address::Account(owner), 0);
    let mut state = DCBBankState::Intact;
    let res = dcb_insert(&ctx, Amount::from_micro_ccd(100), &mut state);
    assert_eq!(res, Ok(Effect::Accept));
    assert_eq!(state, DCBBankState::Intact);
}

#[test]
fn insert_is_open_to_anyone() {
    let owner = account(0);
    for sender in [
        Address::Account(owner),
        Address::Account(account(1)),
        Address::Contract(ContractAddress { index: 3, subindex: 0 }),
    ] {
        let ctx = context(owner, sender, 50);
        let mut state = DCBBankState::Intact;
        assert_eq!(dcb_insert(&ctx, Amount::from_micro_ccd(7), &mut state), Ok(Effect::Accept));
        assert_eq!(state, DCBBankState::Intact);
    }
}

#[test]
fn insert_of_nothing_is_accepted() {
    let owner = account(0);
    let ctx = context(owner, Address::Account(account(9)), 0);
    let mut state = DCBBankState::Intact;
    assert_eq!(dcb_insert(&ctx, Amount::from_micro_ccd(0), &mut state), Ok(Effect::Accept));
    assert_eq!(state, DCBBankState::Intact);
}

#[test]
fn insert_into_smashed_bank_is_rejected() {
    let owner = account(0);
    let ctx = context(owner, Address::Account(owner), 0);
    let mut state = DCBBankState::Smashed;
    let res = dcb_insert(&ctx, Amount::from_micro_ccd(100), &mut state);
    assert_eq!(res, Err(BankError::InvalidStateError));
    assert_eq!(state, DCBBankState::Smashed);
}

#[test]
fn insertions_sum_up_while_intact() {
    let owner = account(0);
    let mut state = DCBBankState::Intact;
    let mut balance: u64 = 5;
    let mut seen = vec![balance];
    for amount in [10u64, 0, 20, 1, 1_000_000] {
        let ctx = context(owner, Address::Account(account(2)), balance);
        let res = dcb_insert(&ctx, Amount::from_micro_ccd(amount), &mut state);
        assert_eq!(res, Ok(Effect::Accept));
        assert_eq!(state, DCBBankState::Intact);
        balance += amount;
        seen.push(balance);
    }
    assert_eq!(balance, 5 + 10 + 0 + 20 + 1 + 1_000_000);
    assert!(seen.windows(2).all(|w| w[0] <= w[1]));
}

#[test]
fn smash_by_owner_transfers_everything() {
    let owner = account(0);
    let ctx = context(owner, Address::Account(owner), 1234);
    let mut state = DCBBankState::Intact;
    let res = dcb_smash(&ctx, &mut state);
    assert_eq!(res, Ok(Effect::Transfer { to: owner, amount: Amount::from_micro_ccd(1234) }));
    assert_eq!(state, DCBBankState::Smashed);
}

#[test]
fn smash_of_empty_bank_transfers_nothing() {
    let owner = account(4);
    let ctx = context(owner, Address::Account(owner), 0);
    let mut state = DCBBankState::Intact;
    let res = dcb_smash(&ctx, &mut state);
    assert_eq!(res, Ok(Effect::Transfer { to: owner, amount: Amount::from_micro_ccd(0) }));
    assert_eq!(state, DCBBankState::Smashed);
}

#[test]
fn smash_succeeds_only_for_owner_of_intact_bank() {
    let owner = account(0);
    let stranger = Address::Account(account(1));
    for (sender, before, expected, after) in [
        (
            Address::Account(owner),
            DCBBankState::Intact,
            Ok(Effect::Transfer { to: owner, amount: Amount::from_micro_ccd(9) }),
            DCBBankState::Smashed,
        ),
        (
            Address::Account(owner),
            DCBBankState::Smashed,
            Err(BankError::InvalidStateError),
            DCBBankState::Smashed,
        ),
        (stranger, DCBBankState::Intact, Err(BankError::UnauthorizedError), DCBBankState::Intact),
        (stranger, DCBBankState::Smashed, Err(BankError::UnauthorizedError), DCBBankState::Smashed),
    ] {
        let ctx = context(owner, sender, 9);
        let mut state = before;
        assert_eq!(dcb_smash(&ctx, &mut state), expected);
        assert_eq!(state, after);
    }
}

#[test]
fn smash_by_other_account_is_unauthorized() {
    let owner = account(0);
    let mut other = [0u8; 32];
    other[31] = 1;
    let ctx = context(owner, Address::Account(AccountAddress(other)), 10);
    let mut state = DCBBankState::Intact;
    assert_eq!(dcb_smash(&ctx, &mut state), Err(BankError::UnauthorizedError));
    assert_eq!(state, DCBBankState::Intact);
}

#[test]
fn smash_by_contract_is_unauthorized() {
    let owner = account(0);
    let ctx = context(owner, Address::Contract(ContractAddress { index: 0, subindex: 0 }), 10);
    let mut state = DCBBankState::Intact;
    assert_eq!(dcb_smash(&ctx, &mut state), Err(BankError::UnauthorizedError));
    assert_eq!(state, DCBBankState::Intact);
}

#[test]
fn second_smash_by_owner_is_rejected() {
    let owner = account(0);
    let mut state = DCBBankState::Intact;
    let first = dcb_smash(&context(owner, Address::Account(owner), 77), &mut state);
    assert_eq!(first, Ok(Effect::Transfer { to: owner, amount: Amount::from_micro_ccd(77) }));
    let second = dcb_smash(&context(owner, Address::Account(owner), 0), &mut state);
    assert_eq!(second, Err(BankError::InvalidStateError));
    assert_eq!(state, DCBBankState::Smashed);
}

#[test]
fn second_smash_by_stranger_is_unauthorized() {
    let owner = account(0);
    let mut state = DCBBankState::Intact;
    assert!(dcb_smash(&context(owner, Address::Account(owner), 77), &mut state).is_ok());
    let second = dcb_smash(&context(owner, Address::Account(account(8)), 0), &mut state);
    assert_eq!(second, Err(BankError::UnauthorizedError));
    assert_eq!(state, DCBBankState::Smashed);
}

#[test]
fn no_insert_after_smash() {
    let owner = account(0);
    let mut state = DCBBankState::Intact;
    assert!(dcb_smash(&context(owner, Address::Account(owner), 3), &mut state).is_ok());
    let balance: u64 = 0;
    for (sender, amount) in [
        (Address::Account(owner), 1u64),
        (Address::Account(account(5)), 0),
        (Address::Contract(ContractAddress { index: 1, subindex: 2 }), 500),
    ] {
        let res = dcb_insert(&context(owner, sender, balance), Amount::from_micro_ccd(amount), &mut state);
        assert_eq!(res, Err(BankError::InvalidStateError));
        assert_eq!(state, DCBBankState::Smashed);
    }
    assert_eq!(balance, 0);
}

#[test]
fn balance_of_by_owner_transfers_everything_and_keeps_state() {
    let owner = account(0);
    for before in [DCBBankState::Intact, DCBBankState::Smashed] {
        let ctx = context(owner, Address::Account(owner), 42);
        let mut state = before;
        let res = dcb_balance_of(&ctx, &mut state);
        assert_eq!(res, Ok(Effect::Transfer { to: owner, amount: Amount::from_micro_ccd(42) }));
        assert_eq!(state, before);
    }
}

#[test]
fn balance_of_by_stranger_is_unauthorized() {
    let owner = account(0);
    let balance: u64 = 42;
    for sender in
        [Address::Account(account(1)), Address::Contract(ContractAddress { index: 0, subindex: 0 })]
    {
        let ctx = context(owner, sender, balance);
        let mut state = DCBBankState::Intact;
        assert_eq!(dcb_balance_of(&ctx, &mut state), Err(BankError::UnauthorizedError));
        assert_eq!(state, DCBBankState::Intact);
    }
    assert_eq!(balance, 42);
}

#[test]
fn life_of_a_plain_bank() {
    let owner = account(0);
    let mut state = dcb_init().expect("a plain bank always starts");
    assert_eq!(state, DCBBankState::Intact);
    let mut balance: u64 = 0;

    let res = dcb_insert(
        &context(owner, Address::Account(account(1)), balance),
        Amount::from_micro_ccd(100),
        &mut state,
    );
    assert_eq!(res, Ok(Effect::Accept));
    balance += 100;
    assert_eq!(balance, 100);
    assert_eq!(state, DCBBankState::Intact);

    let res = dcb_smash(&context(owner, Address::Account(owner), balance), &mut state);
    assert_eq!(res, Ok(Effect::Transfer { to: owner, amount: Amount::from_micro_ccd(100) }));
    assert_eq!(state, DCBBankState::Smashed);
    balance -= 100;

    let res = dcb_insert(
        &context(owner, Address::Account(account(1)), balance),
        Amount::from_micro_ccd(1),
        &mut state,
    );
    assert_eq!(res, Err(BankError::InvalidStateError));
    assert_eq!(state, DCBBankState::Smashed);
    assert_eq!(balance, 0);
}

#[test]
fn bank_created_with_false_flag_takes_nothing() {
    let owner = account(0);
    let mut state = dcb_init_flag(&[0]).expect("a flag of zero is a flag");
    assert_eq!(state, DCBBankState::Smashed);
    let res = dcb_insert(
        &context(owner, Address::Account(owner), 0),
        Amount::from_micro_ccd(1),
        &mut state,
    );
    assert_eq!(res, Err(BankError::InvalidStateError));
    assert_eq!(state, DCBBankState::Smashed);
}

#[test]
fn context_hands_out_its_fields() {
    let owner = account(3);
    let sender = Address::Contract(ContractAddress { index: 7, subindex: 1 });
    let ctx = context(owner, sender, 11);
    assert_eq!(ctx.owner(), owner);
    assert_eq!(ctx.sender(), sender);
    assert_eq!(ctx.self_balance(), Amount { micro_ccd: 11 });
}

#[test]
fn effects_are_built_as_named() {
    let to = account(6);
    assert_eq!(Effect::accept(), Effect::Accept);
    assert_eq!(
        Effect::simple_transfer(&to, Amount::from_micro_ccd(5)),
        Effect::Transfer { to, amount: Amount { micro_ccd: 5 } }
    );
    assert_eq!(Amount::from_micro_ccd(0), Amount { micro_ccd: 0 });
}

#[test]
fn owner_is_matched_on_every_byte() {
    let owner = AccountAddress([7; 32]);
    for position in 0..32 {
        let mut bytes = [7u8; 32];
        bytes[position] = 8;
        let ctx = context(owner, Address::Account(AccountAddress(bytes)), 1);
        let mut state = DCBBankState::Intact;
        assert_eq!(dcb_smash(&ctx, &mut state), Err(BankError::UnauthorizedError));
        assert_eq!(dcb_balance_of(&ctx, &mut state), Err(BankError::UnauthorizedError));
        assert_eq!(state, DCBBankState::Intact);
    }
    let ctx = context(owner, Address::Account(AccountAddress([7; 32])), 1);
    let mut state = DCBBankState::Intact;
    assert_eq!(
        dcb_smash(&ctx, &mut state),
        Ok(Effect::Transfer { to: owner, amount: Amount::from_micro_ccd(1) })
    );
}
