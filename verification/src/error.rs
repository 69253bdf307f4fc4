//! The reasons for which an operation is turned down.

use vstd::prelude::*;

verus! {

/// Why an operation was rejected. A rejected operation changes nothing.
#[derive(Clone, Copy, Debug, PartialEq, Eq, Structural, Hash)]
pub enum ErrorCode {
    /// The symbol is shorter than 3 or longer than 10 bytes.
    InvalidSymbol,
    /// The name is shorter than 2 or longer than 50 bytes.
    InvalidName,
    /// More than 9 decimals were asked for.
    InvalidDecimals,
    /// The amount to mint or to transfer is zero.
    InvalidAmount,
    /// The recipient of a mint is not approved.
    WalletNotApproved,
    /// The sender of a transfer is not approved.
    SenderNotApproved,
    /// The recipient of a transfer is not approved.
    RecipientNotApproved,
    /// The caller is not the authority of the token.
    UnauthorizedAuthority,
    /// The total supply would leave the 64-bit range.
    Overflow,
    /// The token already has a configuration.
    AlreadyExists,
    /// The wallet has no allowlist entry for the token.
    NotFound,
}

/// Why a mint or a transfer did not go through: it was rejected, or the
/// ledger failed, and then the ledger's own error is handed on as it came.
#[derive(Clone, Debug, PartialEq, Eq)]
pub enum Failure<E> {
    /// The operation was rejected, for this reason.
    Rejected(ErrorCode),
    /// The ledger failed, with this error.
    Ledger(E),
}

} // verus!
