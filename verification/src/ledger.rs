//! What is asked of the ledger, which keeps the balances and carries out
//! the mints and transfers that the allowlist admits.

use crate::events::{TokensMintedEvent, TokensTransferredEvent};
use crate::identity::Identity;
use vstd::prelude::*;

verus! {

/// A mint for the ledger to carry out: `amount` units of `mint` to the
/// account `to`.
#[derive(Clone, Copy, Debug, PartialEq, Eq)]
pub struct LedgerMint {
    pub mint: Identity,
    pub to: Identity,
    pub amount: u64,
}

/// A transfer for the ledger to carry out: `amount` units of `mint` from the
/// account `from` to the account `to`.
#[derive(Clone, Copy, Debug, PartialEq, Eq)]
pub struct LedgerTransfer {
    pub mint: Identity,
    pub from: Identity,
    pub to: Identity,
    pub amount: u64,
}

/// Where a mint stands after a step.
#[derive(Clone, Copy, Debug, PartialEq, Eq)]
pub enum MintStep {
    /// The mint is admitted: the ledger is to carry it out.
    AskLedger(LedgerMint),
    /// The ledger has minted and the supply is updated: this is to be
    /// announced.
    Minted(TokensMintedEvent),
}

/// Where a transfer stands after a step.
#[derive(Clone, Copy, Debug, PartialEq, Eq)]
pub enum TransferStep {
    /// The transfer is admitted: the ledger is to carry it out.
    AskLedger(LedgerTransfer),
    /// The ledger has moved the units: this is to be announced.
    Transferred(TokensTransferredEvent),
}

} // verus!
