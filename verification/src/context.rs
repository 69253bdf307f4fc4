//! The records that each operation works on, as the keyed store holds them
//! when the operation begins.
//!
//! A record that may be missing from the store is an `Option`: `None` where
//! its slot is empty.

use crate::allowlist::AllowlistEntry;
use crate::config::{TokenConfig, TokenConfigView};
use crate::identity::Identity;
use vstd::prelude::*;

verus! {

/// What `initialize_token` works on.
#[derive(Clone, Debug, PartialEq, Eq)]
pub struct InitializeToken {
    /// The caller, who becomes the authority of the token.
    pub authority: Identity,
    pub mint: Identity,
    /// The slot of the token's configuration.
    pub token_config: Option<TokenConfig>,
    /// The bump seed of that slot.
    pub bump: u8,
}

/// What an [`InitializeToken`] means.
pub struct InitializeTokenView {
    pub authority: Identity,
    pub mint: Identity,
    pub token_config: Option<TokenConfigView>,
    pub bump: u8,
}

impl View for InitializeToken {
    type V = InitializeTokenView;

    open spec fn view(&self) -> InitializeTokenView {
        InitializeTokenView {
            authority: self.authority,
            mint: self.mint,
            token_config: match self.token_config {
                Some(config) => Some(config@),
                None => None,
            },
            bump: self.bump,
        }
    }
}

/// What `approve_wallet` works on.
#[derive(Clone, Debug, PartialEq, Eq)]
pub struct ApproveWallet {
    /// The caller.
    pub authority: Identity,
    /// The wallet to approve.
    pub wallet: Identity,
    pub token_config: TokenConfig,
    /// The slot of the wallet's entry.
    pub allowlist_entry: Option<AllowlistEntry>,
    /// The bump seed of that slot.
    pub bump: u8,
}

/// What an [`ApproveWallet`] means.
pub struct ApproveWalletView {
    pub authority: Identity,
    pub wallet: Identity,
    pub token_config: TokenConfigView,
    pub allowlist_entry: Option<AllowlistEntry>,
    pub bump: u8,
}

impl View for ApproveWallet {
    type V = ApproveWalletView;

    open spec fn view(&self) -> ApproveWalletView {
        ApproveWalletView {
            authority: self.authority,
            wallet: self.wallet,
            token_config: self.token_config@,
            allowlist_entry: self.allowlist_entry,
            bump: self.bump,
        }
    }
}

/// What `revoke_wallet` works on.
#[derive(Clone, Debug, PartialEq, Eq)]
pub struct RevokeWallet {
    /// The caller.
    pub authority: Identity,
    /// The wallet to revoke.
    pub wallet: Identity,
    pub token_config: TokenConfig,
    /// The slot of the wallet's entry.
    pub allowlist_entry: Option<AllowlistEntry>,
}

/// What a [`RevokeWallet`] means.
pub struct RevokeWalletView {
    pub authority: Identity,
    pub wallet: Identity,
    pub token_config: TokenConfigView,
    pub allowlist_entry: Option<AllowlistEntry>,
}

impl View for RevokeWallet {
    type V = RevokeWalletView;

    open spec fn view(&self) -> RevokeWalletView {
        RevokeWalletView {
            authority: self.authority,
            wallet: self.wallet,
            token_config: self.token_config@,
            allowlist_entry: self.allowlist_entry,
        }
    }
}

/// What `mint_tokens` works on.
#[derive(Clone, Debug, PartialEq, Eq)]
pub struct MintTokens {
    /// The caller.
    pub authority: Identity,
    /// The wallet that is to receive the units.
    pub recipient: Identity,
    pub token_config: TokenConfig,
    pub mint: Identity,
    /// The recipient's account with the ledger.
    pub recipient_token_account: Identity,
    /// The slot of the recipient's entry.
    pub recipient_allowlist_entry: Option<AllowlistEntry>,
}

/// What a [`MintTokens`] means.
pub struct MintTokensView {
    pub authority: Identity,
    pub recipient: Identity,
    pub token_config: TokenConfigView,
    pub mint: Identity,
    pub recipient_token_account: Identity,
    pub recipient_allowlist_entry: Option<AllowlistEntry>,
}

impl View for MintTokens {
    type V = MintTokensView;

    open spec fn view(&self) -> MintTokensView {
        MintTokensView {
            authority: self.authority,
            recipient: self.recipient,
            token_config: self.token_config@,
            mint: self.mint,
            recipient_token_account: self.recipient_token_account,
            recipient_allowlist_entry: self.recipient_allowlist_entry,
        }
    }
}

/// What `gated_transfer` works on.
#[derive(Clone, Debug, PartialEq, Eq)]
pub struct GatedTransfer {
    /// The caller, who is the sender.
    pub authority: Identity,
    /// The wallet that is to receive the units.
    pub recipient: Identity,
    pub token_config: TokenConfig,
    pub mint: Identity,
    /// The sender's account with the ledger.
    pub from_token_account: Identity,
    /// The recipient's account with the ledger.
    pub to_token_account: Identity,
    /// The slot of the sender's entry.
    pub sender_allowlist_entry: Option<AllowlistEntry>,
    /// The slot of the recipient's entry.
    pub recipient_allowlist_entry: Option<AllowlistEntry>,
}

/// What a [`GatedTransfer`] means.
pub struct GatedTransferView {
    pub authority: Identity,
    pub recipient: Identity,
    pub token_config: TokenConfigView,
    pub mint: Identity,
    pub from_token_account: Identity,
    pub to_token_account: Identity,
    pub sender_allowlist_entry: Option<AllowlistEntry>,
    pub recipient_allowlist_entry: Option<AllowlistEntry>,
}

impl View for GatedTransfer {
    type V = GatedTransferView;

    open spec fn view(&self) -> GatedTransferView {
        GatedTransferView {
            authority: self.authority,
            recipient: self.recipient,
            token_config: self.token_config@,
            mint: self.mint,
            from_token_account: self.from_token_account,
            to_token_account: self.to_token_account,
            sender_allowlist_entry: self.sender_allowlist_entry,
            recipient_allowlist_entry: self.recipient_allowlist_entry,
        }
    }
}

} // verus!
