//! An allowlist over a fungible token: who may hold, receive or send
//! units of the token is decided by a single authority, wallet by wallet.
//!
//! The records are the configuration of a token ([`config`]) and the entry
//! of a wallet on its allowlist ([`allowlist`]). The checks that stand before
//! every change are in [`authorization`]. The five operations (initialize a
//! token, approve a wallet, revoke it, mint, transfer) are in [`operations`];
//! each works on the records of its [`context`], hands out an announcement
//! from [`events`] and, for a mint or a transfer, a request for the
//! [`ledger`]. What holds of them together is proved in [`laws`].
//!
//! The balances are the ledger's and the records live in a keyed store.
//! Neither is reached for from here: an operation is given the records that
//! the store holds and says what is to be stored, asked of the ledger and
//! announced.

pub mod allowlist;
pub mod authorization;
pub mod config;
pub mod context;
pub mod error;
pub mod events;
pub mod identity;
pub mod laws;
pub mod ledger;
pub mod operations;
