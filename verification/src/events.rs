//! The notifications that the operations hand out for an event sink.

use crate::identity::Identity;
use vstd::prelude::*;

verus! {

/// A token has been initialized.
#[derive(Clone, Debug, PartialEq, Eq)]
pub struct TokenInitializedEvent {
    pub authority: Identity,
    pub mint: Identity,
    pub symbol: String,
    pub name: String,
    pub decimals: u8,
}

/// What a [`TokenInitializedEvent`] means: its texts as sequences of
/// characters.
pub struct TokenInitializedEventView {
    pub authority: Identity,
    pub mint: Identity,
    pub symbol: Seq<char>,
    pub name: Seq<char>,
    pub decimals: u8,
}

impl View for TokenInitializedEvent {
    type V = TokenInitializedEventView;

    open spec fn view(&self) -> TokenInitializedEventView {
        TokenInitializedEventView {
            authority: self.authority,
            mint: self.mint,
            symbol: self.symbol@,
            name: self.name@,
            decimals: self.decimals,
        }
    }
}

/// A wallet has been approved for a token.
#[derive(Clone, Copy, Debug, PartialEq, Eq)]
pub struct WalletApprovedEvent {
    pub token_mint: Identity,
    pub wallet: Identity,
    pub approved_by: Identity,
    pub timestamp: i64,
}

/// The approval of a wallet has been revoked.
#[derive(Clone, Copy, Debug, PartialEq, Eq)]
pub struct WalletRevokedEvent {
    pub token_mint: Identity,
    pub wallet: Identity,
    pub revoked_by: Identity,
    pub timestamp: i64,
}

/// Units of a token have been minted to a wallet.
#[derive(Clone, Copy, Debug, PartialEq, Eq)]
pub struct TokensMintedEvent {
    pub token_mint: Identity,
    pub recipient: Identity,
    pub amount: u64,
    /// The total supply after this mint.
    pub new_supply: u64,
}

/// Units of a token have moved from one wallet to another.
#[derive(Clone, Copy, Debug, PartialEq, Eq)]
pub struct TokensTransferredEvent {
    pub token_mint: Identity,
    pub from: Identity,
    pub to: Identity,
    pub amount: u64,
}

} // verus!
