//! A piggy bank for a transaction ledger: anyone may put value into it, only
//! its owner may smash it and take everything out, and a smashed bank accepts
//! nothing more.
//!
//! The bank never holds the value itself. The ledger does, and tells the
//! bank with every call who owns it, who is calling and what it holds; the
//! bank answers with an [`effect::Effect`] or a [`state::BankError`].
//!
//! - [`state`]: the two states of a bank, and the errors.
//! - [`chain`]: addresses, amounts and the context of a call.
//! - [`effect`]: what an accepted call asks of the ledger.
//! - [`init`]: how a bank starts, with or without a parameter.
//! - [`bank`]: insert, smash and the balance query.
//! - [`ledger`]: a bank over many calls, and what holds of every history.
//! - [`concordium`]: the calls into `concordium_std`.

pub mod bank;
pub mod chain;
pub mod concordium;
pub mod effect;
pub mod init;
pub mod ledger;
pub mod state;
