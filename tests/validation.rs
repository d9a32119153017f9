use blockchain_validator::base58::{decode_base58, is_base58, Base58Error};
use blockchain_validator::chains::{
    classify_btc, parse_chain, validate, validate_btc_address, validate_eth_address,
    validate_sol_address, BitcoinKind, ChainKind, UnsupportedChain,
};
use blockchain_validator::checksum::{eip55_checksum_holds, eip55_matches, validate_eth_checksum};
use blockchain_validator::report::ValidationResult;
use blockchain_validator::text::{render_bool, render_char, render_count};

fn summary(r: &ValidationResult) -> Vec<(String, bool, String)> {
    r.checks
        .iter()
        .map(|c| (c.name.clone(), c.passed, c.detail.clone()))
        .collect()
}

fn overall_is_conjunction(r: &ValidationResult) -> bool {
    r.overall_valid == r.checks.iter().all(|c| c.passed)
}

fn flip(s: &str, i: usize) -> String {
    s.chars()
        .enumerate()
        .map(|(j, c)| {
            if j != i {
                c
            } else if c.is_ascii_uppercase() {
                c.to_ascii_lowercase()
            } else {
                c.to_ascii_uppercase()
            }
        })
        .collect()
}

#[test]
fn report_starts_valid_and_folds_checks() {
    let mut r = ValidationResult::new();
    assert!(r.is_valid());
    assert_eq!(r.len(), 0);
    r.add_check("a", true, "x".to_string());
    assert!(r.is_valid());
    r.add_check("b", false, "y".to_string());
    assert!(!r.is_valid());
    r.add_check("c", true, "z".to_string());
    assert!(!r.is_valid());
    assert_eq!(r.len(), 3);
    assert_eq!(r.checks[1].name, "b");
    assert_eq!(r.checks[1].detail, "y");
    assert!(!r.checks[1].passed);
}

#[test]
fn details_render_like_formatting() {
    assert_eq!(render_bool(true), "true");
    assert_eq!(render_bool(false), "false");
    assert_eq!(render_count(true, 42), "true (actual: 42)");
    assert_eq!(render_count(false, 0), "false (actual: 0)");
    assert_eq!(render_count(false, 1234567), "false (actual: 1234567)");
    assert_eq!(render_char(false, '6'), "false (actual: 6)");
}

#[test]
fn eth_checksummed_addresses_are_valid() {
    for a in [
        "0xAb8483F64d9C6d1EcF9b849Ae677dD3315835cb2",
        "0x5aAeb6053F3E94C9b9A09f33669435E7Ef1BeAed",
        "0xfB6916095ca1df60bB79Ce92cE3Ea74c37c5d359",
        "0xdbF03B407c01E7cD3CBea99509d93f8DDDC8C6FB",
        "0xD1220A0cf47c7B9Be7A2E6BA89F429762e7b9aDb",
    ] {
        let r = validate_eth_address(a, false);
        assert!(r.overall_valid, "{}", a);
        assert_eq!(
            summary(&r),
            vec![
                ("Starts with 0x".to_string(), true, "true".to_string()),
                ("Length (42 chars)".to_string(), true, "true (actual: 42)".to_string()),
                ("Valid hex characters".to_string(), true, "true".to_string()),
                ("EIP-55 checksum".to_string(), true, "true".to_string()),
            ]
        );
        assert!(validate_eth_checksum(a));
    }
}

#[test]
fn eth_lowercase_skips_checksum() {
    let r = validate_eth_address("0x5aaeb6053f3e94c9b9a09f33669435e7ef1beaed", false);
    assert!(r.overall_valid);
    assert_eq!(r.checks[3].name, "EIP-55 checksum");
    assert!(r.checks[3].passed);
    assert_eq!(r.checks[3].detail, "skipped (all lowercase)");
}

#[test]
fn eth_flipped_letter_fails_checksum() {
    let good = "0x5aAeb6053F3E94C9b9A09f33669435E7Ef1BeAed";
    for (i, c) in good.chars().enumerate().skip(2) {
        if c.is_ascii_alphabetic() {
            let bad = flip(good, i);
            let r = validate_eth_address(&bad, false);
            assert!(!r.overall_valid, "{}", bad);
            assert!(!r.checks[3].passed);
            assert_eq!(r.checks[3].detail, "false");
            assert!(r.checks[2].passed);
        }
    }
}

#[test]
fn eth_wrong_checksum_detected() {
    let r = validate_eth_address("0x5AAeb6053F3E94C9b9A09f33669435E7Ef1BeAed", false);
    assert!(!r.overall_valid);
    assert!(!r.checks[3].passed);
}

#[test]
fn eth_length_41_and_43_fail() {
    let r41 = validate_eth_address("0x5aaeb6053f3e94c9b9a09f33669435e7ef1beae", false);
    assert!(!r41.checks[1].passed);
    assert_eq!(r41.checks[1].detail, "false (actual: 41)");
    assert!(!r41.overall_valid);
    let r43 = validate_eth_address("0x5aaeb6053f3e94c9b9a09f33669435e7ef1beaed0", false);
    assert!(!r43.checks[1].passed);
    assert_eq!(r43.checks[1].detail, "false (actual: 43)");
    assert!(!r43.overall_valid);
}

#[test]
fn eth_non_hex_character() {
    let r = validate_eth_address("0x5aaeb6053f3e94c9b9a09f33669435e7ef1beaeg", false);
    assert!(r.checks[1].passed);
    assert!(!r.checks[2].passed);
    assert_eq!(r.checks[2].name, "Valid hex characters");
    assert!(!r.overall_valid);
}

#[test]
fn eth_without_prefix_has_two_checks() {
    let r = validate_eth_address("5aaeb6053f3e94c9b9a09f33669435e7ef1beaed00", false);
    assert_eq!(
        summary(&r),
        vec![
            ("Starts with 0x".to_string(), false, "false".to_string()),
            ("Length (42 chars)".to_string(), true, "true (actual: 42)".to_string()),
        ]
    );
    assert!(!r.overall_valid);
}

#[test]
fn eth_empty_address() {
    let r = validate_eth_address("", false);
    assert_eq!(r.checks.len(), 2);
    assert_eq!(r.checks[1].detail, "false (actual: 0)");
    assert!(!r.overall_valid);
}

#[test]
fn eip55_rule_against_given_digest() {
    let hex = b"5aaeb6053f3e94c9b9a09f33669435e7ef1beaed";
    let all_high = [0xffu8; 32];
    let all_low = [0x00u8; 32];
    assert!(eip55_matches(hex, &all_low));
    assert!(!eip55_matches(hex, &all_high));
    let upper = b"5AAEB6053F3E94C9B9A09F33669435E7EF1BEAED";
    assert!(eip55_matches(upper, &all_high));
    assert!(!eip55_matches(upper, &all_low));
    assert!(!eip55_matches(b"5aaeb6053f3e94c9b9a09f33669435e7ef1beae", &all_low));
    assert!(!eip55_matches(b"5aaeb6053f3e94c9b9a09f33669435e7ef1beaeg", &all_low));
}

#[test]
fn eip55_uses_keccak_digest() {
    assert!(eip55_checksum_holds(b"5aAeb6053F3E94C9b9A09f33669435E7Ef1BeAed"));
    assert!(!eip55_checksum_holds(b"5aaeb6053f3e94c9b9a09f33669435e7ef1beaed"));
    assert!(!eip55_checksum_holds(b"5AAEB6053F3E94C9B9A09F33669435E7EF1BEAED"));
}

#[test]
fn btc_legacy_address_valid() {
    let r = validate_btc_address("1BvBMSEYstWetqTFn5Au4m4GFg7xJaNVN2", false);
    assert!(r.overall_valid);
    assert_eq!(
        summary(&r),
        vec![
            ("Address type".to_string(), true, "Legacy (starts with 1)".to_string()),
            ("Length".to_string(), true, "true (actual: 34)".to_string()),
            ("Base58 characters".to_string(), true, "true".to_string()),
        ]
    );
}

#[test]
fn btc_zero_character_rejected() {
    let r = validate_btc_address("1BvBMSEYstWetqTFn5Au4m4GFg7xJaNV02", false);
    assert!(r.checks[0].passed);
    assert!(r.checks[1].passed);
    assert!(!r.checks[2].passed);
    assert!(!r.overall_valid);
}

#[test]
fn btc_p2sh_and_bech32() {
    let p = validate_btc_address("3J98t1WpEZ73CNmQviecrnyiWrnqRhWNLy", false);
    assert!(p.overall_valid);
    assert_eq!(p.checks[0].detail, "P2SH (starts with 3)");
    let b = validate_btc_address("bc1qar0srrr7xfkvy5l643lydnw9re59gtzzwf5mdq", false);
    assert!(b.overall_valid);
    assert_eq!(b.checks.len(), 2);
    assert_eq!(b.checks[0].detail, "Bech32 (starts with bc1)");
    let short = validate_btc_address("bc1qar0srrr7xfkvy5l643lydnw9re59gtzz", false);
    assert!(!short.checks[1].passed);
    assert!(!short.overall_valid);
}

#[test]
fn btc_unknown_type() {
    let r = validate_btc_address("xBvBMSEYstWetqTFn5Au4m4GFg7xJaNVN2", false);
    assert_eq!(
        summary(&r),
        vec![
            ("Address type".to_string(), false, "Unknown".to_string()),
            ("Length".to_string(), false, "false (actual: 34)".to_string()),
        ]
    );
    assert!(!r.overall_valid);
    assert_eq!(classify_btc(b""), BitcoinKind::Unknown);
    assert_eq!(classify_btc(b"bc1"), BitcoinKind::Bech32);
    assert_eq!(classify_btc(b"bc"), BitcoinKind::Unknown);
}

#[test]
fn btc_legacy_length_33() {
    let r = validate_btc_address("1BvBMSEYstWetqTFn5Au4m4GFg7xJaNVN", false);
    assert!(r.checks[1].passed);
    let p = validate_btc_address("3J98t1WpEZ73CNmQviecrnyiWrnqRhWNL", false);
    assert!(!p.checks[1].passed);
}

#[test]
fn sol_system_program_valid_with_decode() {
    let a = "11111111111111111111111111111111";
    let r = validate_sol_address(a, true);
    assert!(r.overall_valid);
    assert_eq!(
        summary(&r),
        vec![
            ("Length (32-44 chars)".to_string(), true, "true (actual: 32)".to_string()),
            ("Base58 characters".to_string(), true, "true".to_string()),
            ("First character (1-5)".to_string(), true, "true (actual: 1)".to_string()),
            ("Base58 decoding".to_string(), true, "true".to_string()),
            ("Decoded length (32 bytes)".to_string(), true, "true (actual: 32)".to_string()),
        ]
    );
    let quiet = validate_sol_address(a, false);
    assert!(quiet.overall_valid);
    assert_eq!(quiet.checks.len(), 3);
}

#[test]
fn sol_first_character_six_rejected() {
    let a = "6".to_string() + &"1".repeat(43);
    for decode in [false, true] {
        let r = validate_sol_address(&a, decode);
        assert!(r.checks[0].passed);
        assert!(r.checks[1].passed);
        assert!(!r.checks[2].passed);
        assert_eq!(r.checks[2].detail, "false (actual: 6)");
        assert!(!r.overall_valid);
    }
}

#[test]
fn sol_decoded_length_mismatch() {
    let a = "2".repeat(32);
    let r = validate_sol_address(&a, true);
    assert!(r.checks[3].passed);
    assert_eq!(r.checks[4].name, "Decoded length (32 bytes)");
    assert!(!r.checks[4].passed);
    assert!(!r.overall_valid);
}

#[test]
fn sol_invalid_characters_fail_decoding() {
    let a = "1".repeat(31) + "0";
    let r = validate_sol_address(&a, true);
    assert!(!r.checks[1].passed);
    assert_eq!(r.checks.len(), 4);
    assert_eq!(r.checks[3].name, "Base58 decoding");
    assert!(!r.checks[3].passed);
}

#[test]
fn sol_empty_address() {
    let r = validate_sol_address("", false);
    assert_eq!(r.checks[2].detail, "false (actual:  )");
    assert!(!r.overall_valid);
}

#[test]
fn base58_alphabet_and_decoding() {
    assert!(is_base58(b"123456789ABCDEFGHJKLMNPQRSTUVWXYZabcdefghijkmnopqrstuvwxyz"));
    for bad in [&b"0"[..], b"I", b"O", b"l", b"+", b""] {
        assert!(!is_base58(bad));
    }
    assert_eq!(decode_base58(b""), Err(Base58Error::EmptyInput));
    assert_eq!(decode_base58(b"1l"), Err(Base58Error::InvalidCharacter));
    assert_eq!(decode_base58(b"1112"), Ok(vec![0, 0, 0, 1]));
    assert_eq!(decode_base58(b"5R"), Ok(vec![1, 0]));
}

#[test]
fn parse_chain_names() {
    assert_eq!(parse_chain("eth"), Ok(ChainKind::Ethereum));
    assert_eq!(parse_chain("btc"), Ok(ChainKind::Bitcoin));
    assert_eq!(parse_chain("sol"), Ok(ChainKind::Solana));
    assert_eq!(parse_chain("doge"), Err(UnsupportedChain));
    assert_eq!(parse_chain("ETH"), Err(UnsupportedChain));
    assert_eq!(parse_chain(""), Err(UnsupportedChain));
}

#[test]
fn validate_dispatches_and_is_repeatable() {
    let cases = [
        (ChainKind::Ethereum, "0xAb8483F64d9C6d1EcF9b849Ae677dD3315835cb2"),
        (ChainKind::Bitcoin, "1BvBMSEYstWetqTFn5Au4m4GFg7xJaNVN2"),
        (ChainKind::Solana, "11111111111111111111111111111111"),
        (ChainKind::Ethereum, "0xzz"),
        (ChainKind::Solana, "6"),
    ];
    for (chain, a) in cases {
        let r1 = validate(chain, a, true);
        let r2 = validate(chain, a, true);
        assert_eq!(r1.overall_valid, r2.overall_valid);
        assert_eq!(summary(&r1), summary(&r2));
        assert!(overall_is_conjunction(&r1));
    }
    assert!(validate(ChainKind::Bitcoin, "1BvBMSEYstWetqTFn5Au4m4GFg7xJaNVN2", false).overall_valid);
    assert!(!validate(ChainKind::Ethereum, "1BvBMSEYstWetqTFn5Au4m4GFg7xJaNVN2", false).overall_valid);
}
