//! What holds of the operations together, proved from what each of them does.
//!
//! The keyed store hands an operation the records that earlier operations on
//! the same token and wallet have left. The laws on several operations in a
//! row say so by building the next context from the records of the one
//! before.

use crate::allowlist::AllowlistEntry;
use crate::config::{
    ascii_text_len, text_len_bounds, valid_decimals, valid_name, valid_symbol, TokenConfigView,
};
use crate::context::{
    ApproveWalletView, GatedTransferView, InitializeTokenView, MintTokensView, RevokeWalletView,
};
use crate::error::{ErrorCode, Failure};
use crate::events::{TokenInitializedEventView, WalletApprovedEvent, WalletRevokedEvent};
use crate::identity::Identity;
use crate::ledger::{MintStep, TransferStep};
use crate::operations::{
    approve_wallet_outcome, gated_transfer_outcome, initialize_token_outcome, mint_request,
    mint_tokens_outcome, revoke_wallet_outcome, transfer_request,
};
use vstd::prelude::*;
use vstd::utf8::is_ascii_chars;

verus! {

/// Lengths in characters. A symbol within bounds has between 1 and 10
/// characters and a name within bounds between 1 and 50. For ASCII text the
/// bounds are on the number of characters itself: 3 to 10 for a symbol, 2 to
/// 50 for a name.
pub proof fn bounds_in_characters(symbol: Seq<char>, name: Seq<char>)
    ensures
        valid_symbol(symbol) ==> 1 <= symbol.len() <= 10,
        valid_name(name) ==> 1 <= name.len() <= 50,
        is_ascii_chars(symbol) ==> (valid_symbol(symbol) <==> 3 <= symbol.len() <= 10),
        is_ascii_chars(name) ==> (valid_name(name) <==> 2 <= name.len() <= 50),
{
    text_len_bounds(symbol);
    text_len_bounds(name);
    if is_ascii_chars(symbol) {
        ascii_text_len(symbol);
    }
    if is_ascii_chars(name) {
        ascii_text_len(name);
    }
}

/// A token is initialized exactly once. With parameters within bounds the
/// initialization of a token that has no configuration goes through, and it
/// leaves the configuration with no supply in the token's slot. Whoever then
/// initializes the same token again, with whatever parameters, is turned down
/// with `AlreadyExists`, and the configuration stays.
pub proof fn initialize_goes_through_exactly_once(
    ctx: InitializeTokenView,
    symbol: Seq<char>,
    name: Seq<char>,
    decimals: u8,
    again: InitializeTokenView,
    symbol_again: Seq<char>,
    name_again: Seq<char>,
    decimals_again: u8,
)
    requires
        ctx.token_config is None,
        valid_symbol(symbol),
        valid_name(name),
        valid_decimals(decimals),
        again.token_config == initialize_token_outcome(ctx, symbol, name, decimals).0.token_config,
    ensures
        initialize_token_outcome(ctx, symbol, name, decimals).1 is Ok,
        initialize_token_outcome(ctx, symbol, name, decimals).0.token_config == Some(
            TokenConfigView::fresh(symbol, name, decimals, ctx.authority, ctx.mint, ctx.bump),
        ),
        initialize_token_outcome(again, symbol_again, name_again, decimals_again).0 == again,
        initialize_token_outcome(again, symbol_again, name_again, decimals_again).1 == Err::<
            TokenInitializedEventView,
            _,
        >(ErrorCode::AlreadyExists),
{
}

/// Mints add up. When the authority mints `first` and then `second` units to
/// an approved wallet and the ledger carries out both, the supply after the
/// first mint is the old supply and `first`; the supply after the second is
/// the old supply, `first` and `second` if that fits in 64 bits, and else the
/// second mint is turned down with `Overflow` and the supply stays where the
/// first left it. For a token that has just been initialized the old supply
/// is zero.
pub proof fn mints_add_up<E>(ctx: MintTokensView, first: u64, second: u64)
    requires
        ctx.authority == ctx.token_config.authority,
        ctx.recipient_allowlist_entry matches Some(entry) && entry.is_approved,
        ctx.token_config.total_supply + first <= u64::MAX,
    ensures
        ({
            let (after_first, first_result) = mint_tokens_outcome::<E>(
                ctx,
                first,
                Some(Ok(())),
            );
            let (after_second, second_result) = mint_tokens_outcome::<E>(
                after_first,
                second,
                Some(Ok(())),
            );
            &&& first > 0 ==> first_result is Ok
            &&& after_first.token_config.total_supply == ctx.token_config.total_supply + first
            &&& if ctx.token_config.total_supply + first + second <= u64::MAX {
                &&& second > 0 ==> second_result is Ok
                &&& after_second.token_config.total_supply == ctx.token_config.total_supply
                    + first + second
            } else {
                &&& second_result == Err::<MintStep, _>(
                    Failure::<E>::Rejected(ErrorCode::Overflow),
                )
                &&& after_second.token_config.total_supply == ctx.token_config.total_supply
                    + first
            }
        }),
{
}

/// A mint changes nothing of a configuration but its supply, and the supply
/// never shrinks.
pub proof fn mint_changes_the_supply_alone<E>(
    ctx: MintTokensView,
    amount: u64,
    reply: Option<Result<(), E>>,
)
    ensures
        ({
            let after = mint_tokens_outcome(ctx, amount, reply).0;
            &&& after == MintTokensView { token_config: after.token_config, ..ctx }
            &&& after.token_config == TokenConfigView {
                total_supply: after.token_config.total_supply,
                ..ctx.token_config
            }
            &&& after.token_config.total_supply >= ctx.token_config.total_supply
            &&& ctx.token_config.well_formed() ==> after.token_config.well_formed()
        }),
{
}

/// The history of a wallet is kept. When the authority approves a wallet,
/// revokes it and approves it again, the entry is not approved after the
/// revocation and says when it was revoked; after the second approval it is
/// approved again, its time of approval is that of the second approval, and
/// its time of revocation is still that of the revocation.
pub proof fn revocation_is_remembered(
    ctx: ApproveWalletView,
    approved_at: i64,
    revoked_at: i64,
    approved_again_at: i64,
)
    requires
        ctx.authority == ctx.token_config.authority,
    ensures
        ({
            let (first, approval) = approve_wallet_outcome(ctx, approved_at);
            let (second, revocation) = revoke_wallet_outcome(
                RevokeWalletView {
                    authority: ctx.authority,
                    wallet: ctx.wallet,
                    token_config: ctx.token_config,
                    allowlist_entry: first.allowlist_entry,
                },
                revoked_at,
            );
            let (third, renewal) = approve_wallet_outcome(
                ApproveWalletView { allowlist_entry: second.allowlist_entry, ..ctx },
                approved_again_at,
            );
            &&& approval is Ok && revocation is Ok && renewal is Ok
            &&& first.allowlist_entry matches Some(entry) && entry.is_approved
                && entry.approved_at == approved_at
            &&& second.allowlist_entry matches Some(entry) && !entry.is_approved
                && entry.approved_at == approved_at && entry.revoked_at == Some(revoked_at)
            &&& third.allowlist_entry matches Some(entry) && entry.is_approved
                && entry.approved_at == approved_again_at && entry.revoked_at == Some(
                revoked_at,
            )
        }),
{
}

/// Approving twice in a row leaves the wallet approved, with the time of the
/// second approval; revoking twice in a row leaves it revoked, with the time
/// of the second revocation.
pub proof fn approval_and_revocation_repeat(
    slot: Option<AllowlistEntry>,
    entry: AllowlistEntry,
    wallet: Identity,
    bump: u8,
    first: i64,
    second: i64,
)
    ensures
        AllowlistEntry::approved(
            Some(AllowlistEntry::approved(slot, wallet, first, bump)),
            wallet,
            second,
            bump,
        ) == AllowlistEntry::approved(slot, wallet, second, bump),
        entry.revoked(first).revoked(second) == entry.revoked(second),
{
}

/// Nothing is minted to a wallet that is not approved. Where the recipient
/// has no entry, every step of a mint fails with `NotFound`. Where the entry
/// of the recipient is not approved, every step fails, and with
/// `WalletNotApproved` if the amount is not zero and the caller is the
/// authority. In both cases the records, and with them the supply, stay as
/// they are.
pub proof fn nothing_is_minted_to_an_unapproved_wallet<E>(
    ctx: MintTokensView,
    amount: u64,
    reply: Option<Result<(), E>>,
)
    requires
        ctx.recipient_allowlist_entry matches Some(entry) ==> !entry.is_approved,
    ensures
        mint_tokens_outcome(ctx, amount, reply).0 == ctx,
        mint_tokens_outcome(ctx, amount, reply).1 matches Err(Failure::Rejected(_)),
        ctx.recipient_allowlist_entry is None ==> mint_tokens_outcome(ctx, amount, reply).1 == Err::<
            MintStep,
            _,
        >(Failure::<E>::Rejected(ErrorCode::NotFound)),
        ctx.recipient_allowlist_entry is Some && amount > 0 && ctx.authority
            == ctx.token_config.authority ==> mint_tokens_outcome(ctx, amount, reply).1 == Err::<
            MintStep,
            _,
        >(Failure::<E>::Rejected(ErrorCode::WalletNotApproved)),
{
}

/// A transfer needs both wallets approved. Between two wallets with entries
/// and for an amount that is not zero, every step of a transfer fails with
/// `SenderNotApproved` where the sender is not approved, whatever the
/// recipient is, and with `RecipientNotApproved` where only the sender is
/// approved. Where both are approved the ledger is asked for just this
/// transfer, and after the ledger's success the transfer is announced. Who
/// the authority of the token is plays no part.
pub proof fn transfer_needs_both_wallets_approved<E>(
    ctx: GatedTransferView,
    amount: u64,
    reply: Option<Result<(), E>>,
)
    requires
        ctx.sender_allowlist_entry is Some,
        ctx.recipient_allowlist_entry is Some,
        amount > 0,
    ensures
        ({
            let sender_approved = ctx.sender_allowlist_entry->0.is_approved;
            let recipient_approved = ctx.recipient_allowlist_entry->0.is_approved;
            let result = gated_transfer_outcome(ctx, amount, reply);
            &&& !sender_approved ==> result == Err::<TransferStep, _>(
                Failure::<E>::Rejected(ErrorCode::SenderNotApproved),
            )
            &&& sender_approved && !recipient_approved ==> result == Err::<TransferStep, _>(
                Failure::<E>::Rejected(ErrorCode::RecipientNotApproved),
            )
            &&& sender_approved && recipient_approved && reply is None ==> result == Ok::<
                _,
                Failure<E>,
            >(TransferStep::AskLedger(transfer_request(ctx, amount)))
            &&& sender_approved && recipient_approved && reply == Some(Ok::<(), E>(()))
                ==> result matches Ok(TransferStep::Transferred(_))
        }),
{
}

/// A transfer goes through only between two approved wallets: wherever a
/// step of a transfer does not fail, both have entries and both are approved.
pub proof fn transfer_goes_through_only_between_approved_wallets<E>(
    ctx: GatedTransferView,
    amount: u64,
    reply: Option<Result<(), E>>,
)
    requires
        gated_transfer_outcome(ctx, amount, reply) is Ok,
    ensures
        ctx.sender_allowlist_entry matches Some(entry) && entry.is_approved,
        ctx.recipient_allowlist_entry matches Some(entry) && entry.is_approved,
        amount > 0,
{
}

/// Only the authority approves. Whoever else calls is turned down with
/// `UnauthorizedAuthority`, whatever the slot of the wallet holds, and the
/// records stay as they are.
pub proof fn only_the_authority_approves(ctx: ApproveWalletView, now: i64)
    requires
        ctx.authority != ctx.token_config.authority,
    ensures
        approve_wallet_outcome(ctx, now).0 == ctx,
        approve_wallet_outcome(ctx, now).1 == Err::<WalletApprovedEvent, _>(
            ErrorCode::UnauthorizedAuthority,
        ),
{
}

/// Only the authority revokes. Whoever else calls for a wallet that has an
/// entry is turned down with `UnauthorizedAuthority`, and the records stay as
/// they are.
pub proof fn only_the_authority_revokes(ctx: RevokeWalletView, now: i64)
    requires
        ctx.authority != ctx.token_config.authority,
        ctx.allowlist_entry is Some,
    ensures
        revoke_wallet_outcome(ctx, now).0 == ctx,
        revoke_wallet_outcome(ctx, now).1 == Err::<WalletRevokedEvent, _>(
            ErrorCode::UnauthorizedAuthority,
        ),
{
}

/// Only the authority mints. Whoever else calls, for an amount that is not
/// zero and a recipient that has an entry, is turned down at every step with
/// `UnauthorizedAuthority`, whether the recipient is approved or not and
/// whatever the ledger has answered, and the records stay as they are.
pub proof fn only_the_authority_mints<E>(
    ctx: MintTokensView,
    amount: u64,
    reply: Option<Result<(), E>>,
)
    requires
        ctx.authority != ctx.token_config.authority,
        ctx.recipient_allowlist_entry is Some,
        amount > 0,
    ensures
        mint_tokens_outcome(ctx, amount, reply).0 == ctx,
        mint_tokens_outcome(ctx, amount, reply).1 == Err::<MintStep, _>(
            Failure::<E>::Rejected(ErrorCode::UnauthorizedAuthority),
        ),
{
}

/// No record is ever deleted: a slot that holds a record before an operation
/// holds one after it, and a configuration that is there stays as it is
/// through an initialization.
pub proof fn no_record_is_deleted(
    initialize: InitializeTokenView,
    symbol: Seq<char>,
    name: Seq<char>,
    decimals: u8,
    approve: ApproveWalletView,
    revoke: RevokeWalletView,
    now: i64,
)
    ensures
        initialize.token_config is Some ==> initialize_token_outcome(
            initialize,
            symbol,
            name,
            decimals,
        ).0.token_config == initialize.token_config,
        approve.allowlist_entry is Some ==> approve_wallet_outcome(
            approve,
            now,
        ).0.allowlist_entry is Some,
        revoke.allowlist_entry is Some ==> revoke_wallet_outcome(
            revoke,
            now,
        ).0.allowlist_entry is Some,
{
}

/// An operation that fails changes nothing: the records that it leaves are
/// those that it found.
pub proof fn a_failed_operation_changes_nothing<E>(
    initialize: InitializeTokenView,
    symbol: Seq<char>,
    name: Seq<char>,
    decimals: u8,
    approve: ApproveWalletView,
    revoke: RevokeWalletView,
    now: i64,
    mint: MintTokensView,
    amount: u64,
    reply: Option<Result<(), E>>,
)
    ensures
        initialize_token_outcome(initialize, symbol, name, decimals).1 is Err
            ==> initialize_token_outcome(initialize, symbol, name, decimals).0 == initialize,
        approve_wallet_outcome(approve, now).1 is Err ==> approve_wallet_outcome(approve, now).0
            == approve,
        revoke_wallet_outcome(revoke, now).1 is Err ==> revoke_wallet_outcome(revoke, now).0
            == revoke,
        mint_tokens_outcome(mint, amount, reply).1 is Err ==> mint_tokens_outcome(
            mint,
            amount,
            reply,
        ).0 == mint,
{
}

/// The ledger is asked only for a mint that is admitted, and for just what
/// was called for: where the first step of a mint hands out a request, the
/// amount is not zero, the caller is the authority, the recipient is
/// approved, and the request is for that amount of the token to the
/// recipient's account.
pub proof fn the_ledger_is_asked_only_for_an_admitted_mint<E>(ctx: MintTokensView, amount: u64)
    requires
        mint_tokens_outcome::<E>(ctx, amount, None).1 is Ok,
    ensures
        mint_tokens_outcome::<E>(ctx, amount, None).1 == Ok::<_, Failure<E>>(
            MintStep::AskLedger(mint_request(ctx, amount)),
        ),
        mint_request(ctx, amount).amount == amount,
        mint_request(ctx, amount).mint == ctx.mint,
        mint_request(ctx, amount).to == ctx.recipient_token_account,
        amount > 0,
        ctx.authority == ctx.token_config.authority,
        ctx.recipient_allowlist_entry matches Some(entry) && entry.is_approved,
{
}

} // verus!
