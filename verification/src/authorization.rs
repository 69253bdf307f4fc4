//! The checks that stand before every operation that changes the allowlist,
//! the supply or a balance.

use crate::allowlist::AllowlistEntry;
use crate::config::{TokenConfig, TokenConfigView};
use crate::error::ErrorCode;
use crate::identity::Identity;
use vstd::prelude::*;

verus! {

/// Only the authority of a token may approve, revoke and mint.
pub open spec fn authority_verdict(config: TokenConfigView, caller: Identity) -> Result<
    (),
    ErrorCode,
> {
    if caller == config.authority {
        Ok(())
    } else {
        Err(ErrorCode::UnauthorizedAuthority)
    }
}

/// Units are minted only to an approved wallet.
pub open spec fn mint_verdict(recipient_entry: AllowlistEntry) -> Result<(), ErrorCode> {
    if recipient_entry.is_approved {
        Ok(())
    } else {
        Err(ErrorCode::WalletNotApproved)
    }
}

/// Units move only between approved wallets. The sender is looked at first.
pub open spec fn transfer_verdict(
    sender_entry: AllowlistEntry,
    recipient_entry: AllowlistEntry,
) -> Result<(), ErrorCode> {
    if !sender_entry.is_approved {
        Err(ErrorCode::SenderNotApproved)
    } else if !recipient_entry.is_approved {
        Err(ErrorCode::RecipientNotApproved)
    } else {
        Ok(())
    }
}

/// Checks that `caller` is the authority of the token.
pub fn authorize_authority_action(
    config: &TokenConfig,
    caller: &Identity,
) -> (verdict: Result<(), ErrorCode>)
    ensures
        verdict == authority_verdict(config@, *caller),
{
    if *caller == config.authority {
        Ok(())
    } else {
        Err(ErrorCode::UnauthorizedAuthority)
    }
}

/// Checks that the recipient of a mint is approved.
pub fn authorize_mint(
    config: &TokenConfig,
    recipient_entry: &AllowlistEntry,
) -> (verdict: Result<(), ErrorCode>)
    ensures
        verdict == mint_verdict(*recipient_entry),
{
    if recipient_entry.is_approved {
        Ok(())
    } else {
        Err(ErrorCode::WalletNotApproved)
    }
}

/// Checks that the sender and the recipient of a transfer are approved.
pub fn authorize_transfer(
    sender_entry: &AllowlistEntry,
    recipient_entry: &AllowlistEntry,
) -> (verdict: Result<(), ErrorCode>)
    ensures
        verdict == transfer_verdict(*sender_entry, *recipient_entry),
{
    if !sender_entry.is_approved {
        Err(ErrorCode::SenderNotApproved)
    } else if !recipient_entry.is_approved {
        Err(ErrorCode::RecipientNotApproved)
    } else {
        Ok(())
    }
}

} // verus!
