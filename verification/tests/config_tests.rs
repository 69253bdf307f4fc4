use gated_token::config::{
    check_parameters, TokenConfig, MAX_DECIMALS, MAX_NAME_LEN, MAX_SYMBOL_LEN, MIN_NAME_LEN,
    MIN_SYMBOL_LEN,
};
use gated_token::context::InitializeToken;
use gated_token::error::ErrorCode;
use gated_token::events::TokenInitializedEvent;
use gated_token::identity::Identity;
use gated_token::operations::initialize_token;

fn key(n: u8) -> Identity {
    Identity::new([n; 32])
}

fn empty_slot() -> InitializeToken {
    InitializeToken { authority: key(1), mint: key(2), token_config: None, bump: 254 }
}

fn text(len: usize) -> String {
    "x".repeat(len)
}

#[test]
fn identity_keeps_its_bytes() {
    let mut bytes = [0u8; 32];
    for (i, b) in bytes.iter_mut().enumerate() {
        *b = i as u8;
    }
    let id = Identity::new(bytes);
    assert_eq!(id.to_bytes(), bytes);
    assert_eq!(id.bytes, bytes);
}

#[test]
fn identities_compare_byte_for_byte() {
    let a = Identity::new([7; 32]);
    let b = Identity::new([7; 32]);
    assert!(a == b);
    let mut last = [7u8; 32];
    last[31] = 8;
    assert!(a != Identity::new(last));
    let mut first = [7u8; 32];
    first[0] = 0;
    assert!(a != Identity::new(first));
}

#[test]
fn bounds_are_as_documented() {
    assert_eq!(MIN_SYMBOL_LEN, 3);
    assert_eq!(MAX_SYMBOL_LEN, 10);
    assert_eq!(MIN_NAME_LEN, 2);
    assert_eq!(MAX_NAME_LEN, 50);
    assert_eq!(MAX_DECIMALS, 9);
}

#[test]
fn initialize_fills_the_slot_and_announces() {
    let mut ctx = empty_slot();
    let event = initialize_token(&mut ctx, "ABC".to_string(), "Alpha Coin".to_string(), 6);
    assert_eq!(
        event,
        Ok(TokenInitializedEvent {
            authority: key(1),
            mint: key(2),
            symbol: "ABC".to_string(),
            name: "Alpha Coin".to_string(),
            decimals: 6,
        })
    );
    assert_eq!(
        ctx,
        InitializeToken {
            authority: key(1),
            mint: key(2),
            token_config: Some(TokenConfig {
                authority: key(1),
                mint: key(2),
                symbol: "ABC".to_string(),
                name: "Alpha Coin".to_string(),
                decimals: 6,
                total_supply: 0,
                bump: 254,
            }),
            bump: 254,
        }
    );
}

#[test]
fn initialize_goes_through_only_once() {
    let mut ctx = empty_slot();
    assert!(initialize_token(&mut ctx, "ABC".to_string(), "Alpha Coin".to_string(), 6).is_ok());
    let after_first = ctx.clone();
    assert_eq!(
        initialize_token(&mut ctx, "ABC".to_string(), "Alpha Coin".to_string(), 6),
        Err(ErrorCode::AlreadyExists)
    );
    assert_eq!(ctx, after_first);
    // another caller, other parameters: the slot is still taken
    ctx.authority = key(9);
    let taken = ctx.clone();
    assert_eq!(
        initialize_token(&mut ctx, "XYZ".to_string(), "Other".to_string(), 0),
        Err(ErrorCode::AlreadyExists)
    );
    assert_eq!(ctx, taken);
}

#[test]
fn a_taken_slot_is_reported_before_bad_parameters() {
    let mut ctx = empty_slot();
    assert!(initialize_token(&mut ctx, "ABC".to_string(), "Alpha Coin".to_string(), 6).is_ok());
    assert_eq!(
        initialize_token(&mut ctx, "".to_string(), "".to_string(), 200),
        Err(ErrorCode::AlreadyExists)
    );
}

#[test]
fn symbol_length_bounds() {
    assert_eq!(check_parameters(&text(2), "Name", 0), Err(ErrorCode::InvalidSymbol));
    assert_eq!(check_parameters(&text(3), "Name", 0), Ok(()));
    assert_eq!(check_parameters(&text(10), "Name", 0), Ok(()));
    assert_eq!(check_parameters(&text(11), "Name", 0), Err(ErrorCode::InvalidSymbol));
    assert_eq!(check_parameters("", "Name", 0), Err(ErrorCode::InvalidSymbol));
}

#[test]
fn name_length_bounds() {
    assert_eq!(check_parameters("ABC", &text(1), 0), Err(ErrorCode::InvalidName));
    assert_eq!(check_parameters("ABC", &text(2), 0), Ok(()));
    assert_eq!(check_parameters("ABC", &text(50), 0), Ok(()));
    assert_eq!(check_parameters("ABC", &text(51), 0), Err(ErrorCode::InvalidName));
    assert_eq!(check_parameters("ABC", "", 0), Err(ErrorCode::InvalidName));
}

#[test]
fn decimals_bounds() {
    assert_eq!(check_parameters("ABC", "Name", 0), Ok(()));
    assert_eq!(check_parameters("ABC", "Name", 9), Ok(()));
    assert_eq!(check_parameters("ABC", "Name", 10), Err(ErrorCode::InvalidDecimals));
    assert_eq!(check_parameters("ABC", "Name", 255), Err(ErrorCode::InvalidDecimals));
}

#[test]
fn the_first_bad_parameter_decides() {
    assert_eq!(check_parameters("AB", "N", 10), Err(ErrorCode::InvalidSymbol));
    assert_eq!(check_parameters("ABC", "N", 10), Err(ErrorCode::InvalidName));
    assert_eq!(check_parameters("AB", "Name", 10), Err(ErrorCode::InvalidSymbol));
}

#[test]
fn lengths_are_counted_in_bytes() {
    // one character of three bytes is long enough for a symbol
    assert_eq!("\u{20ac}".len(), 3);
    assert_eq!(check_parameters("\u{20ac}", "Name", 0), Ok(()));
    // four characters of three bytes each are too long
    assert_eq!(
        check_parameters("\u{20ac}\u{20ac}\u{20ac}\u{20ac}", "Name", 0),
        Err(ErrorCode::InvalidSymbol)
    );
    // one character of two bytes is long enough for a name
    assert_eq!(check_parameters("ABC", "\u{e9}", 0), Ok(()));
}

#[test]
fn rejected_initialization_leaves_the_slot_empty() {
    let mut ctx = empty_slot();
    assert_eq!(
        initialize_token(&mut ctx, "AB".to_string(), "Alpha Coin".to_string(), 6),
        Err(ErrorCode::InvalidSymbol)
    );
    assert_eq!(ctx, empty_slot());
    assert_eq!(
        initialize_token(&mut ctx, "ABC".to_string(), "A".to_string(), 6),
        Err(ErrorCode::InvalidName)
    );
    assert_eq!(ctx, empty_slot());
    assert_eq!(
        initialize_token(&mut ctx, "ABC".to_string(), "Alpha Coin".to_string(), 10),
        Err(ErrorCode::InvalidDecimals)
    );
    assert_eq!(ctx, empty_slot());
    // and the token can still be initialized afterwards
    assert!(initialize_token(&mut ctx, "ABC".to_string(), "Alpha Coin".to_string(), 9).is_ok());
}

#[test]
fn fresh_configuration_has_no_supply() {
    let config =
        TokenConfig::initialize("GTK".to_string(), "Guarded".to_string(), 2, key(1), key(2), 7)
            .unwrap();
    assert_eq!(
        config,
        TokenConfig {
            authority: key(1),
            mint: key(2),
            symbol: "GTK".to_string(),
            name: "Guarded".to_string(),
            decimals: 2,
            total_supply: 0,
            bump: 7,
        }
    );
    assert_eq!(
        TokenConfig::initialize("G".to_string(), "Guarded".to_string(), 2, key(1), key(2), 7),
        Err(ErrorCode::InvalidSymbol)
    );
}

#[test]
fn record_mint_adds_to_the_supply() {
    let mut config =
        TokenConfig::initialize("GTK".to_string(), "Guarded".to_string(), 2, key(1), key(2), 7)
            .unwrap();
    assert_eq!(config.record_mint(250), Ok(()));
    assert_eq!(config.total_supply, 250);
    assert_eq!(config.record_mint(750), Ok(()));
    assert_eq!(config.total_supply, 1000);
    assert_eq!(config.record_mint(0), Ok(()));
    assert_eq!(config.total_supply, 1000);
    assert_eq!(config.symbol, "GTK");
    assert_eq!(config.name, "Guarded");
    assert_eq!(config.decimals, 2);
    assert_eq!(config.authority, key(1));
    assert_eq!(config.mint, key(2));
    assert_eq!(config.bump, 7);
}

#[test]
fn record_mint_stops_at_the_64_bit_range() {
    let mut config =
        TokenConfig::initialize("GTK".to_string(), "Guarded".to_string(), 2, key(1), key(2), 7)
            .unwrap();
    assert_eq!(config.record_mint(u64::MAX - 5), Ok(()));
    assert_eq!(config.record_mint(6), Err(ErrorCode::Overflow));
    assert_eq!(config.total_supply, u64::MAX - 5);
    assert_eq!(config.record_mint(5), Ok(()));
    assert_eq!(config.total_supply, u64::MAX);
    let full = config.clone();
    assert_eq!(config.record_mint(1), Err(ErrorCode::Overflow));
    assert_eq!(config, full);
    assert_eq!(config.record_mint(u64::MAX), Err(ErrorCode::Overflow));
    assert_eq!(config, full);
}
