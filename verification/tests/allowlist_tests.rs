use gated_token::allowlist::AllowlistEntry;
use gated_token::config::TokenConfig;
use gated_token::context::{ApproveWallet, RevokeWallet};
use gated_token::error::ErrorCode;
use gated_token::events::{WalletApprovedEvent, WalletRevokedEvent};
use gated_token::authorization::{authorize_authority_action, authorize_mint, authorize_transfer};
use gated_token::identity::Identity;
use gated_token::operations::{approve_wallet, revoke_wallet};

fn party(n: u8) -> Identity {
    Identity::new([n; 32])
}

const AUTHORITY: u8 = 1;
const MINT: u8 = 2;
const WALLET: u8 = 3;
const STRANGER: u8 = 4;

fn token() -> TokenConfig {
    TokenConfig {
        authority: party(AUTHORITY),
        mint: party(MINT),
        symbol: "ABC".to_string(),
        name: "Alpha Coin".to_string(),
        decimals: 6,
        total_supply: 0,
        bump: 250,
    }
}

fn approval(caller: u8, slot: Option<AllowlistEntry>) -> ApproveWallet {
    ApproveWallet {
        authority: party(caller),
        wallet: party(WALLET),
        token_config: token(),
        allowlist_entry: slot,
        bump: 251,
    }
}

fn revocation(caller: u8, slot: Option<AllowlistEntry>) -> RevokeWallet {
    RevokeWallet {
        authority: party(caller),
        wallet: party(WALLET),
        token_config: token(),
        allowlist_entry: slot,
    }
}

fn entry(is_approved: bool, approved_at: i64, revoked_at: Option<i64>) -> AllowlistEntry {
    AllowlistEntry { wallet: party(WALLET), is_approved, approved_at, revoked_at, bump: 251 }
}

#[test]
fn first_approval_makes_the_entry() {
    let mut ctx = approval(AUTHORITY, None);
    let event = approve_wallet(&mut ctx, 1_700_000_000);
    assert_eq!(
        event,
        Ok(WalletApprovedEvent {
            token_mint: party(MINT),
            wallet: party(WALLET),
            approved_by: party(AUTHORITY),
            timestamp: 1_700_000_000,
        })
    );
    assert_eq!(ctx.allowlist_entry, Some(entry(true, 1_700_000_000, None)));
    assert_eq!(ctx.token_config, token());
    assert_eq!(ctx.authority, party(AUTHORITY));
    assert_eq!(ctx.wallet, party(WALLET));
}

#[test]
fn approve_revoke_approve_keeps_the_history() {
    let mut first = approval(AUTHORITY, None);
    assert!(approve_wallet(&mut first, 100).is_ok());

    let mut second = revocation(AUTHORITY, first.allowlist_entry);
    let event = revoke_wallet(&mut second, 200);
    assert_eq!(
        event,
        Ok(WalletRevokedEvent {
            token_mint: party(MINT),
            wallet: party(WALLET),
            revoked_by: party(AUTHORITY),
            timestamp: 200,
        })
    );
    assert_eq!(second.allowlist_entry, Some(entry(false, 100, Some(200))));

    let mut third = approval(AUTHORITY, second.allowlist_entry);
    assert!(approve_wallet(&mut third, 300).is_ok());
    assert_eq!(third.allowlist_entry, Some(entry(true, 300, Some(200))));
}

#[test]
fn approving_twice_renews_the_time() {
    let mut ctx = approval(AUTHORITY, None);
    assert!(approve_wallet(&mut ctx, 100).is_ok());
    assert!(approve_wallet(&mut ctx, 150).is_ok());
    assert_eq!(ctx.allowlist_entry, Some(entry(true, 150, None)));
}

#[test]
fn revoking_twice_renews_the_time() {
    let mut ctx = revocation(AUTHORITY, Some(entry(true, 100, None)));
    assert!(revoke_wallet(&mut ctx, 200).is_ok());
    assert!(revoke_wallet(&mut ctx, 250).is_ok());
    assert_eq!(ctx.allowlist_entry, Some(entry(false, 100, Some(250))));
}

#[test]
fn timestamps_may_be_negative_or_extreme() {
    let mut ctx = approval(AUTHORITY, None);
    assert!(approve_wallet(&mut ctx, i64::MIN).is_ok());
    assert_eq!(ctx.allowlist_entry, Some(entry(true, i64::MIN, None)));
    let mut ctx = revocation(AUTHORITY, ctx.allowlist_entry);
    assert!(revoke_wallet(&mut ctx, i64::MAX).is_ok());
    assert_eq!(ctx.allowlist_entry, Some(entry(false, i64::MIN, Some(i64::MAX))));
}

#[test]
fn a_stranger_cannot_approve() {
    for slot in [None, Some(entry(true, 1, None)), Some(entry(false, 1, Some(2)))] {
        let mut ctx = approval(STRANGER, slot);
        let before = ctx.clone();
        assert_eq!(approve_wallet(&mut ctx, 100), Err(ErrorCode::UnauthorizedAuthority));
        assert_eq!(ctx, before);
    }
}

#[test]
fn the_wallet_cannot_approve_itself() {
    let mut ctx = approval(WALLET, None);
    assert_eq!(approve_wallet(&mut ctx, 100), Err(ErrorCode::UnauthorizedAuthority));
    assert_eq!(ctx.allowlist_entry, None);
}

#[test]
fn a_stranger_cannot_revoke() {
    let mut ctx = revocation(STRANGER, Some(entry(true, 100, None)));
    let before = ctx.clone();
    assert_eq!(revoke_wallet(&mut ctx, 200), Err(ErrorCode::UnauthorizedAuthority));
    assert_eq!(ctx, before);
}

#[test]
fn revoking_a_wallet_without_entry_is_not_found() {
    let mut ctx = revocation(AUTHORITY, None);
    let before = ctx.clone();
    assert_eq!(revoke_wallet(&mut ctx, 200), Err(ErrorCode::NotFound));
    assert_eq!(ctx, before);
    // a missing entry is reported before the caller is looked at
    let mut ctx = revocation(STRANGER, None);
    assert_eq!(revoke_wallet(&mut ctx, 200), Err(ErrorCode::NotFound));
}

#[test]
fn approval_takes_wallet_and_bump_from_the_context() {
    let stale = AllowlistEntry {
        wallet: party(9),
        is_approved: false,
        approved_at: 5,
        revoked_at: Some(6),
        bump: 1,
    };
    let mut ctx = approval(AUTHORITY, Some(stale));
    assert!(approve_wallet(&mut ctx, 7).is_ok());
    assert_eq!(ctx.allowlist_entry, Some(entry(true, 7, Some(6))));
}

#[test]
fn a_blank_record_is_no_entry() {
    let blank = AllowlistEntry {
        wallet: Identity::new([0; 32]),
        is_approved: false,
        approved_at: 0,
        revoked_at: None,
        bump: 0,
    };
    assert!(!blank.is_well_formed());
    assert!(entry(true, 0, None).is_well_formed());
    assert!(entry(true, 5, Some(3)).is_well_formed());
    assert!(entry(false, 5, Some(7)).is_well_formed());
    assert!(!entry(false, 5, None).is_well_formed());
}

#[test]
fn entry_transitions() {
    let made = AllowlistEntry::approve(None, party(WALLET), 10, 251);
    assert_eq!(made, entry(true, 10, None));
    let mut changed = made;
    changed.revoke(20);
    assert_eq!(changed, entry(false, 10, Some(20)));
    let renewed = AllowlistEntry::approve(Some(changed), party(WALLET), 30, 251);
    assert_eq!(renewed, entry(true, 30, Some(20)));
}

#[test]
fn authority_check() {
    assert_eq!(authorize_authority_action(&token(), &party(AUTHORITY)), Ok(()));
    assert_eq!(
        authorize_authority_action(&token(), &party(STRANGER)),
        Err(ErrorCode::UnauthorizedAuthority)
    );
    assert_eq!(
        authorize_authority_action(&token(), &party(MINT)),
        Err(ErrorCode::UnauthorizedAuthority)
    );
}

#[test]
fn mint_check() {
    assert_eq!(authorize_mint(&token(), &entry(true, 1, None)), Ok(()));
    assert_eq!(authorize_mint(&token(), &entry(true, 3, Some(2))), Ok(()));
    assert_eq!(
        authorize_mint(&token(), &entry(false, 1, Some(2))),
        Err(ErrorCode::WalletNotApproved)
    );
}

#[test]
fn transfer_check_looks_at_the_sender_first() {
    let yes = entry(true, 1, None);
    let no = entry(false, 1, Some(2));
    assert_eq!(authorize_transfer(&yes, &yes), Ok(()));
    assert_eq!(authorize_transfer(&no, &yes), Err(ErrorCode::SenderNotApproved));
    assert_eq!(authorize_transfer(&yes, &no), Err(ErrorCode::RecipientNotApproved));
    assert_eq!(authorize_transfer(&no, &no), Err(ErrorCode::SenderNotApproved));
}
