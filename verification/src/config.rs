//! The configuration of a token: who governs it, how it is displayed, and
//! how many units of it have been minted.

use crate::error::ErrorCode;
use crate::identity::Identity;
use vstd::prelude::*;
use vstd::utf8::{encode_scalar, encode_utf8, is_ascii_chars, is_ascii_chars_encode_utf8};

verus! {

/// The length of the shortest symbol, in bytes.
pub const MIN_SYMBOL_LEN: usize = 3;

/// The length of the longest symbol, in bytes.
pub const MAX_SYMBOL_LEN: usize = 10;

/// The length of the shortest name, in bytes.
pub const MIN_NAME_LEN: usize = 2;

/// The length of the longest name, in bytes.
pub const MAX_NAME_LEN: usize = 50;

/// The finest precision that a token can have.
pub const MAX_DECIMALS: u8 = 9;

/// The length of a text: the number of bytes of its UTF-8 encoding, which for
/// ASCII text is the number of its characters.
pub open spec fn text_len(text: Seq<char>) -> nat {
    encode_utf8(text).len()
}

/// A text of ASCII characters is as long as it has characters.
pub proof fn ascii_text_len(text: Seq<char>)
    requires
        is_ascii_chars(text),
    ensures
        text_len(text) == text.len(),
{
    is_ascii_chars_encode_utf8(text);
}

/// Every character of a text takes between one and four bytes.
pub proof fn text_len_bounds(text: Seq<char>)
    ensures
        text.len() <= text_len(text) <= 4 * text.len(),
    decreases text.len(),
{
    if text.len() > 0 {
        text_len_bounds(text.drop_first());
        assert(1 <= encode_scalar(text[0] as u32).len() <= 4);
    }
}

/// A symbol is between 3 and 10 bytes long.
pub open spec fn valid_symbol(symbol: Seq<char>) -> bool {
    MIN_SYMBOL_LEN <= text_len(symbol) <= MAX_SYMBOL_LEN
}

/// A name is between 2 and 50 bytes long.
pub open spec fn valid_name(name: Seq<char>) -> bool {
    MIN_NAME_LEN <= text_len(name) <= MAX_NAME_LEN
}

/// A token has at most 9 decimals.
pub open spec fn valid_decimals(decimals: u8) -> bool {
    decimals <= MAX_DECIMALS
}

/// The verdict on the parameters of a new token: the first of symbol, name
/// and decimals that is out of bounds decides the error.
pub open spec fn parameters_verdict(symbol: Seq<char>, name: Seq<char>, decimals: u8) -> Result<
    (),
    ErrorCode,
> {
    if !valid_symbol(symbol) {
        Err(ErrorCode::InvalidSymbol)
    } else if !valid_name(name) {
        Err(ErrorCode::InvalidName)
    } else if !valid_decimals(decimals) {
        Err(ErrorCode::InvalidDecimals)
    } else {
        Ok(())
    }
}

/// The configuration of one token, kept under the token's identity.
///
/// Everything but `total_supply` is fixed when the token is initialized.
#[derive(Clone, Debug, PartialEq, Eq)]
pub struct TokenConfig {
    /// The only principal who may approve and revoke wallets and mint.
    pub authority: Identity,
    /// The identity of the token that this configuration belongs to.
    pub mint: Identity,
    pub symbol: String,
    pub name: String,
    pub decimals: u8,
    /// The units minted so far.
    pub total_supply: u64,
    /// The bump seed of the slot that holds this record.
    pub bump: u8,
}

/// What a [`TokenConfig`] means: its texts as sequences of characters and its
/// supply as a natural number.
pub struct TokenConfigView {
    pub authority: Identity,
    pub mint: Identity,
    pub symbol: Seq<char>,
    pub name: Seq<char>,
    pub decimals: u8,
    pub total_supply: nat,
    pub bump: u8,
}

impl View for TokenConfig {
    type V = TokenConfigView;

    open spec fn view(&self) -> TokenConfigView {
        TokenConfigView {
            authority: self.authority,
            mint: self.mint,
            symbol: self.symbol@,
            name: self.name@,
            decimals: self.decimals,
            total_supply: self.total_supply as nat,
            bump: self.bump,
        }
    }
}

impl TokenConfigView {
    /// The invariant of a configuration: its parameters are within bounds and
    /// its supply fits in 64 bits.
    pub open spec fn well_formed(self) -> bool {
        &&& valid_symbol(self.symbol)
        &&& valid_name(self.name)
        &&& valid_decimals(self.decimals)
        &&& self.total_supply <= u64::MAX
    }

    /// The configuration of a token that has just been initialized: nothing
    /// has been minted yet.
    pub open spec fn fresh(
        symbol: Seq<char>,
        name: Seq<char>,
        decimals: u8,
        authority: Identity,
        mint: Identity,
        bump: u8,
    ) -> TokenConfigView {
        TokenConfigView { authority, mint, symbol, name, decimals, total_supply: 0, bump }
    }

    /// The configuration after `amount` units more have been minted, or
    /// `Overflow` if the supply would leave the 64-bit range.
    pub open spec fn minted(self, amount: u64) -> Result<TokenConfigView, ErrorCode> {
        if self.total_supply + amount > u64::MAX {
            Err(ErrorCode::Overflow)
        } else {
            Ok(TokenConfigView { total_supply: (self.total_supply + amount) as nat, ..self })
        }
    }
}

/// Checks the parameters of a new token.
pub fn check_parameters(symbol: &str, name: &str, decimals: u8) -> (verdict: Result<(), ErrorCode>)
    ensures
        verdict == parameters_verdict(symbol@, name@, decimals),
{
    let symbol_len = symbol.as_bytes().len();
    if symbol_len < MIN_SYMBOL_LEN || symbol_len > MAX_SYMBOL_LEN {
        return Err(ErrorCode::InvalidSymbol);
    }
    let name_len = name.as_bytes().len();
    if name_len < MIN_NAME_LEN || name_len > MAX_NAME_LEN {
        return Err(ErrorCode::InvalidName);
    }
    if decimals > MAX_DECIMALS {
        return Err(ErrorCode::InvalidDecimals);
    }
    Ok(())
}

impl TokenConfig {
    /// The configuration of a new token with no supply, if its parameters
    /// are within bounds.
    pub fn initialize(
        symbol: String,
        name: String,
        decimals: u8,
        authority: Identity,
        mint: Identity,
        bump: u8,
    ) -> (made: Result<TokenConfig, ErrorCode>)
        ensures
            match made {
                Ok(config) => {
                    &&& parameters_verdict(symbol@, name@, decimals) is Ok
                    &&& config@ == TokenConfigView::fresh(
                        symbol@,
                        name@,
                        decimals,
                        authority,
                        mint,
                        bump,
                    )
                    &&& config@.well_formed()
                },
                Err(code) => parameters_verdict(symbol@, name@, decimals) == Err::<(), _>(code),
            },
    {
        match check_parameters(symbol.as_str(), name.as_str(), decimals) {
            Err(code) => Err(code),
            Ok(()) => Ok(
                TokenConfig { authority, mint, symbol, name, decimals, total_supply: 0, bump },
            ),
        }
    }

    /// Adds `amount` to the total supply. If the sum does not fit in 64 bits
    /// the configuration stays as it was and `Overflow` is returned.
    pub fn record_mint(&mut self, amount: u64) -> (recorded: Result<(), ErrorCode>)
        ensures
            match recorded {
                Ok(()) => old(self)@.minted(amount) == Ok::<_, ErrorCode>(final(self)@),
                Err(code) => {
                    &&& old(self)@.minted(amount) == Err::<TokenConfigView, _>(code)
                    &&& *final(self) == *old(self)
                },
            },
            old(self)@.well_formed() ==> final(self)@.well_formed(),
    {
        match self.total_supply.checked_add(amount) {
            Some(supply) => {
                self.total_supply = supply;
                Ok(())
            },
            None => Err(ErrorCode::Overflow),
        }
    }
}

} // verus!
