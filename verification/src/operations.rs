//! The five operations on a token with an allowlist.
//!
//! Each works on the records that its context holds and either goes through,
//! changing them and handing out what is to be announced, or is rejected and
//! changes nothing. What an operation does is laid down by a specification
//! function on the views of its arguments, its `..._outcome`: the records as
//! the operation leaves them, and what it returns.
//!
//! A mint and a transfer need the ledger, and nothing here reaches for it: a
//! first step says what the ledger is to do, and a second step takes the
//! ledger's answer and finishes the operation.

use crate::allowlist::AllowlistEntry;
use crate::config::{parameters_verdict, TokenConfig, TokenConfigView};
use crate::context::{
    ApproveWallet, ApproveWalletView, GatedTransfer, GatedTransferView, InitializeToken,
    InitializeTokenView, MintTokens, MintTokensView, RevokeWallet, RevokeWalletView,
};
use crate::error::{ErrorCode, Failure};
use crate::events::{
    TokenInitializedEvent, TokenInitializedEventView, TokensMintedEvent, TokensTransferredEvent,
    WalletApprovedEvent, WalletRevokedEvent,
};
use crate::authorization::{
    authority_verdict, authorize_authority_action, authorize_mint, authorize_transfer,
    mint_verdict, transfer_verdict,
};
use crate::ledger::{LedgerMint, LedgerTransfer, MintStep, TransferStep};
use vstd::prelude::*;

verus! {

/// What `initialize_token` does: on an empty slot and with parameters within
/// bounds, the slot gets the fresh configuration of the token.
pub open spec fn initialize_token_outcome(
    ctx: InitializeTokenView,
    symbol: Seq<char>,
    name: Seq<char>,
    decimals: u8,
) -> (InitializeTokenView, Result<TokenInitializedEventView, ErrorCode>) {
    if ctx.token_config is Some {
        (ctx, Err(ErrorCode::AlreadyExists))
    } else {
        match parameters_verdict(symbol, name, decimals) {
            Err(code) => (ctx, Err(code)),
            Ok(()) => (
                InitializeTokenView {
                    token_config: Some(
                        TokenConfigView::fresh(
                            symbol,
                            name,
                            decimals,
                            ctx.authority,
                            ctx.mint,
                            ctx.bump,
                        ),
                    ),
                    ..ctx
                },
                Ok(
                    TokenInitializedEventView {
                        authority: ctx.authority,
                        mint: ctx.mint,
                        symbol,
                        name,
                        decimals,
                    },
                ),
            ),
        }
    }
}

/// What `approve_wallet` does: for the authority, the wallet's slot gets an
/// approved entry.
pub open spec fn approve_wallet_outcome(ctx: ApproveWalletView, now: i64) -> (
    ApproveWalletView,
    Result<WalletApprovedEvent, ErrorCode>,
) {
    match authority_verdict(ctx.token_config, ctx.authority) {
        Err(code) => (ctx, Err(code)),
        Ok(()) => (
            ApproveWalletView {
                allowlist_entry: Some(
                    AllowlistEntry::approved(ctx.allowlist_entry, ctx.wallet, now, ctx.bump),
                ),
                ..ctx
            },
            Ok(
                WalletApprovedEvent {
                    token_mint: ctx.token_config.mint,
                    wallet: ctx.wallet,
                    approved_by: ctx.authority,
                    timestamp: now,
                },
            ),
        ),
    }
}

/// What `revoke_wallet` does: for the authority, the entry in the wallet's
/// slot is revoked.
pub open spec fn revoke_wallet_outcome(ctx: RevokeWalletView, now: i64) -> (
    RevokeWalletView,
    Result<WalletRevokedEvent, ErrorCode>,
) {
    match ctx.allowlist_entry {
        None => (ctx, Err(ErrorCode::NotFound)),
        Some(entry) => match authority_verdict(ctx.token_config, ctx.authority) {
            Err(code) => (ctx, Err(code)),
            Ok(()) => (
                RevokeWalletView { allowlist_entry: Some(entry.revoked(now)), ..ctx },
                Ok(
                    WalletRevokedEvent {
                        token_mint: ctx.token_config.mint,
                        wallet: ctx.wallet,
                        revoked_by: ctx.authority,
                        timestamp: now,
                    },
                ),
            ),
        },
    }
}

/// Whether a mint is admitted: the recipient has an entry, the amount is not
/// zero, the caller is the authority and the recipient is approved. The first
/// of these that fails decides the error.
pub open spec fn mint_admission(ctx: MintTokensView, amount: u64) -> Result<(), ErrorCode> {
    match ctx.recipient_allowlist_entry {
        None => Err(ErrorCode::NotFound),
        Some(entry) => if amount == 0 {
            Err(ErrorCode::InvalidAmount)
        } else if authority_verdict(ctx.token_config, ctx.authority) is Err {
            Err(ErrorCode::UnauthorizedAuthority)
        } else {
            mint_verdict(entry)
        },
    }
}

/// What the ledger is asked to do for a mint.
pub open spec fn mint_request(ctx: MintTokensView, amount: u64) -> LedgerMint {
    LedgerMint { mint: ctx.mint, to: ctx.recipient_token_account, amount }
}

/// What `mint_tokens` does. Where the mint is admitted: with no answer from
/// the ledger yet, the ledger is asked; after its failure nothing changes and
/// its error is handed on; after its success the supply grows by the amount,
/// unless that would leave the 64-bit range.
pub open spec fn mint_tokens_outcome<E>(
    ctx: MintTokensView,
    amount: u64,
    reply: Option<Result<(), E>>,
) -> (MintTokensView, Result<MintStep, Failure<E>>) {
    match mint_admission(ctx, amount) {
        Err(code) => (ctx, Err(Failure::Rejected(code))),
        Ok(()) => match reply {
            None => (ctx, Ok(MintStep::AskLedger(mint_request(ctx, amount)))),
            Some(Err(error)) => (ctx, Err(Failure::Ledger(error))),
            Some(Ok(())) => match ctx.token_config.minted(amount) {
                Err(code) => (ctx, Err(Failure::Rejected(code))),
                Ok(config) => (
                    MintTokensView { token_config: config, ..ctx },
                    Ok(
                        MintStep::Minted(
                            TokensMintedEvent {
                                token_mint: ctx.mint,
                                recipient: ctx.recipient,
                                amount,
                                new_supply: config.total_supply as u64,
                            },
                        ),
                    ),
                ),
            },
        },
    }
}

/// Whether a transfer is admitted: sender and recipient have entries, the amount
/// is not zero, the sender is approved and the recipient is approved. The
/// first of these that fails decides the error. Who calls is not looked at.
pub open spec fn transfer_admission(ctx: GatedTransferView, amount: u64) -> Result<(), ErrorCode> {
    match (ctx.sender_allowlist_entry, ctx.recipient_allowlist_entry) {
        (Some(sender_entry), Some(recipient_entry)) => if amount == 0 {
            Err(ErrorCode::InvalidAmount)
        } else {
            transfer_verdict(sender_entry, recipient_entry)
        },
        _ => Err(ErrorCode::NotFound),
    }
}

/// What the ledger is asked to do for a transfer.
pub open spec fn transfer_request(ctx: GatedTransferView, amount: u64) -> LedgerTransfer {
    LedgerTransfer {
        mint: ctx.mint,
        from: ctx.from_token_account,
        to: ctx.to_token_account,
        amount,
    }
}

/// What `gated_transfer` does. Where the transfer is admitted: with no answer
/// from the ledger yet, the ledger is asked; after its failure its error is handed on;
/// after its success the transfer is announced.
pub open spec fn gated_transfer_outcome<E>(
    ctx: GatedTransferView,
    amount: u64,
    reply: Option<Result<(), E>>,
) -> Result<TransferStep, Failure<E>> {
    match transfer_admission(ctx, amount) {
        Err(code) => Err(Failure::Rejected(code)),
        Ok(()) => match reply {
            None => Ok(TransferStep::AskLedger(transfer_request(ctx, amount))),
            Some(Err(error)) => Err(Failure::Ledger(error)),
            Some(Ok(())) => Ok(
                TransferStep::Transferred(
                    TokensTransferredEvent {
                        token_mint: ctx.mint,
                        from: ctx.authority,
                        to: ctx.recipient,
                        amount,
                    },
                ),
            ),
        },
    }
}

/// Initializes a token: puts its configuration, with no supply, into the
/// empty slot of `ctx`.
///
/// Fails with `AlreadyExists` if the slot is taken, else with `InvalidSymbol`,
/// `InvalidName` or `InvalidDecimals` for the first parameter out of bounds.
pub fn initialize_token(
    ctx: &mut InitializeToken,
    symbol: String,
    name: String,
    decimals: u8,
) -> (result: Result<TokenInitializedEvent, ErrorCode>)
    ensures
        initialize_token_outcome(old(ctx)@, symbol@, name@, decimals) == (
            final(ctx)@,
            match result {
                Ok(event) => Ok(event@),
                Err(code) => Err(code),
            },
        ),
        result is Ok ==> (final(ctx)@.token_config matches Some(config) && config.well_formed()),
        result is Err ==> *final(ctx) == *old(ctx),
{
    if ctx.token_config.is_some() {
        return Err(ErrorCode::AlreadyExists);
    }
    match TokenConfig::initialize(symbol, name, decimals, ctx.authority, ctx.mint, ctx.bump) {
        Err(code) => Err(code),
        Ok(config) => {
            let event = TokenInitializedEvent {
                authority: ctx.authority,
                mint: ctx.mint,
                symbol: config.symbol.clone(),
                name: config.name.clone(),
                decimals,
            };
            ctx.token_config = Some(config);
            Ok(event)
        },
    }
}

/// Approves the wallet of `ctx` at `now`: makes its entry if there is none,
/// else sets the flag of the entry again and renews its time of approval.
///
/// Fails with `UnauthorizedAuthority` if the caller is not the authority of
/// the token.
pub fn approve_wallet(ctx: &mut ApproveWallet, now: i64) -> (result: Result<
    WalletApprovedEvent,
    ErrorCode,
>)
    ensures
        approve_wallet_outcome(old(ctx)@, now) == (final(ctx)@, result),
        result is Ok ==> (final(ctx).allowlist_entry matches Some(entry) && entry.well_formed()),
        result is Err ==> *final(ctx) == *old(ctx),
{
    match authorize_authority_action(&ctx.token_config, &ctx.authority) {
        Err(code) => Err(code),
        Ok(()) => {
            ctx.allowlist_entry = Some(
                AllowlistEntry::approve(ctx.allowlist_entry, ctx.wallet, now, ctx.bump),
            );
            Ok(
                WalletApprovedEvent {
                    token_mint: ctx.token_config.mint,
                    wallet: ctx.wallet,
                    approved_by: ctx.authority,
                    timestamp: now,
                },
            )
        },
    }
}

/// Revokes the wallet of `ctx` at `now`: clears the flag of its entry and
/// notes the time.
///
/// Fails with `NotFound` if the wallet has no entry, else with
/// `UnauthorizedAuthority` if the caller is not the authority of the token.
pub fn revoke_wallet(ctx: &mut RevokeWallet, now: i64) -> (result: Result<
    WalletRevokedEvent,
    ErrorCode,
>)
    ensures
        revoke_wallet_outcome(old(ctx)@, now) == (final(ctx)@, result),
        result is Ok ==> (final(ctx).allowlist_entry matches Some(entry) && entry.well_formed()),
        result is Err ==> *final(ctx) == *old(ctx),
{
    let mut entry = match ctx.allowlist_entry {
        None => {
            return Err(ErrorCode::NotFound);
        },
        Some(entry) => entry,
    };
    match authorize_authority_action(&ctx.token_config, &ctx.authority) {
        Err(code) => Err(code),
        Ok(()) => {
            entry.revoke(now);
            ctx.allowlist_entry = Some(entry);
            Ok(
                WalletRevokedEvent {
                    token_mint: ctx.token_config.mint,
                    wallet: ctx.wallet,
                    revoked_by: ctx.authority,
                    timestamp: now,
                },
            )
        },
    }
}

/// Checks whether a mint is admitted.
fn check_mint_admission(ctx: &MintTokens, amount: u64) -> (verdict: Result<(), ErrorCode>)
    ensures
        verdict == mint_admission(ctx@, amount),
{
    match &ctx.recipient_allowlist_entry {
        None => Err(ErrorCode::NotFound),
        Some(entry) => {
            if amount == 0 {
                return Err(ErrorCode::InvalidAmount);
            }
            match authorize_authority_action(&ctx.token_config, &ctx.authority) {
                Err(code) => Err(code),
                Ok(()) => authorize_mint(&ctx.token_config, entry),
            }
        },
    }
}

/// One step of minting `amount` units to the recipient of `ctx`.
///
/// `reply` is the ledger's answer, `None` as long as the ledger has not been
/// asked. Every step first checks whether the mint is admitted, and fails
/// with `NotFound`, `InvalidAmount`, `UnauthorizedAuthority` or
/// `WalletNotApproved` where it is not. Where it is:
/// - with no answer yet, the step hands out the mint that the ledger is to
///   carry out;
/// - after the ledger's failure, it hands on the ledger's error;
/// - after the ledger's success, it adds `amount` to the total supply and
///   hands out the announcement with the new supply, or fails with
///   `Overflow` if the supply would leave the 64-bit range.
///
/// Only the last of these changes `ctx`.
pub fn mint_tokens<E>(
    ctx: &mut MintTokens,
    amount: u64,
    reply: Option<Result<(), E>>,
) -> (result: Result<MintStep, Failure<E>>)
    ensures
        mint_tokens_outcome(old(ctx)@, amount, reply) == (final(ctx)@, result),
        result is Err || reply is None ==> *final(ctx) == *old(ctx),
        old(ctx)@.token_config.well_formed() ==> final(ctx)@.token_config.well_formed(),
{
    match check_mint_admission(ctx, amount) {
        Err(code) => {
            return Err(Failure::Rejected(code));
        },
        Ok(()) => {},
    }
    match reply {
        None => Ok(
            MintStep::AskLedger(
                LedgerMint { mint: ctx.mint, to: ctx.recipient_token_account, amount },
            ),
        ),
        Some(Err(error)) => Err(Failure::Ledger(error)),
        Some(Ok(())) => match ctx.token_config.record_mint(amount) {
            Err(code) => Err(Failure::Rejected(code)),
            Ok(()) => Ok(
                MintStep::Minted(
                    TokensMintedEvent {
                        token_mint: ctx.mint,
                        recipient: ctx.recipient,
                        amount,
                        new_supply: ctx.token_config.total_supply,
                    },
                ),
            ),
        },
    }
}

/// Checks whether a transfer is admitted.
fn check_transfer_admission(ctx: &GatedTransfer, amount: u64) -> (verdict: Result<(), ErrorCode>)
    ensures
        verdict == transfer_admission(ctx@, amount),
{
    match (&ctx.sender_allowlist_entry, &ctx.recipient_allowlist_entry) {
        (Some(sender_entry), Some(recipient_entry)) => {
            if amount == 0 {
                return Err(ErrorCode::InvalidAmount);
            }
            authorize_transfer(sender_entry, recipient_entry)
        },
        _ => Err(ErrorCode::NotFound),
    }
}

/// One step of transferring `amount` units from the caller of `ctx` to its
/// recipient.
///
/// `reply` is the ledger's answer, `None` as long as the ledger has not been
/// asked. Every step first checks whether the transfer is admitted, and fails
/// with `NotFound`, `InvalidAmount`, `SenderNotApproved` or
/// `RecipientNotApproved` where it is not. Where it is:
/// - with no answer yet, the step hands out the transfer that the ledger is
///   to carry out;
/// - after the ledger's failure, it hands on the ledger's error;
/// - after the ledger's success, it hands out the announcement.
///
/// A transfer changes no record.
pub fn gated_transfer<E>(
    ctx: &GatedTransfer,
    amount: u64,
    reply: Option<Result<(), E>>,
) -> (result: Result<TransferStep, Failure<E>>)
    ensures
        result == gated_transfer_outcome(ctx@, amount, reply),
{
    match check_transfer_admission(ctx, amount) {
        Err(code) => {
            return Err(Failure::Rejected(code));
        },
        Ok(()) => {},
    }
    match reply {
        None => Ok(
            TransferStep::AskLedger(
                LedgerTransfer {
                    mint: ctx.mint,
                    from: ctx.from_token_account,
                    to: ctx.to_token_account,
                    amount,
                },
            ),
        ),
        Some(Err(error)) => Err(Failure::Ledger(error)),
        Some(Ok(())) => Ok(
            TransferStep::Transferred(
                TokensTransferredEvent {
                    token_mint: ctx.mint,
                    from: ctx.authority,
                    to: ctx.recipient,
                    amount,
                },
            ),
        ),
    }
}

} // verus!
