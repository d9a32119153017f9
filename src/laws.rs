//! Properties that relate the validators' results across inputs and calls.

use vstd::prelude::*;
use vstd::string::StringSliceAdditionalSpecFns;
use crate::base58::is_base58_text;
use crate::chains::{
    eth_checks, has_upper, is_hex_text, validation_of, ChainKind,
};
use crate::checksum::{
    after_prefix, eip55_rule, eip55_valid, is_dec_digit, is_hex_byte, is_lower_hex_letter,
    keccak256_of, lower_bytes, nibble, position_ok, starts_0x,
};
use crate::report::{all_passed, ValidationResult};

verus! {

/// The lowercase hex digit of a value below 16.
pub open spec fn hex_digit_lower(n: int) -> u8 {
    if n < 10 {
        (48 + n) as u8
    } else {
        (87 + n) as u8
    }
}

/// The lowercase hex encoding of `v`, two digits per byte, high nibble first.
pub open spec fn lower_hex(v: Seq<u8>) -> Seq<u8> {
    Seq::new(
        2 * v.len(),
        |i: int|
            hex_digit_lower(
                if i % 2 == 0 {
                    v[i / 2] as int / 16
                } else {
                    v[i / 2] as int % 16
                },
            ),
    )
}

/// `lower` with each letter raised to uppercase where its nibble of `digest`
/// is at least 8.
pub open spec fn checksum_case(lower: Seq<u8>, digest: Seq<u8>) -> Seq<u8> {
    Seq::new(
        lower.len(),
        |i: int|
            if is_lower_hex_letter(lower[i]) && nibble(digest, i) >= 8 {
                (lower[i] - 32) as u8
            } else {
                lower[i]
            },
    )
}

/// The EIP-55 mixed-case rendering of the hex digits of `v`.
pub open spec fn checksum_hex(v: Seq<u8>) -> Seq<u8> {
    checksum_case(lower_hex(v), keccak256_of(lower_hex(v)))
}

/// The case of a letter turned over; other bytes unchanged.
pub open spec fn toggle_case(c: u8) -> u8 {
    if 65 <= c <= 90 {
        (c + 32) as u8
    } else if 97 <= c <= 122 {
        (c - 32) as u8
    } else {
        c
    }
}

/// `s` with the case of position `i` turned over.
pub open spec fn flip_case(s: Seq<u8>, i: int) -> Seq<u8> {
    s.update(i, toggle_case(s[i]))
}

/// `0x` followed by `hex`.
pub open spec fn prefixed(hex: Seq<u8>) -> Seq<u8> {
    seq![48u8, 120u8] + hex
}

/// Validation is a function of its inputs: two reports on the same chain,
/// address and decode policy are equal.
pub proof fn lemma_validate_deterministic(
    chain: ChainKind,
    address: &str,
    decode: bool,
    r1: ValidationResult,
    r2: ValidationResult,
)
    requires
        r1@ == validation_of(chain, address, decode),
        r2@ == validation_of(chain, address, decode),
    ensures
        r1@ == r2@,
{
}

proof fn lemma_prefixed(hex: Seq<u8>)
    ensures
        starts_0x(prefixed(hex)),
        after_prefix(prefixed(hex)) == hex,
        prefixed(hex).len() == hex.len() + 2,
{
    assert(after_prefix(prefixed(hex)) =~= hex);
}

proof fn lemma_lower_hex(v: Seq<u8>)
    ensures
        lower_hex(v).len() == 2 * v.len(),
        forall|i: int|
            0 <= i < 2 * v.len() ==> (is_dec_digit(#[trigger] lower_hex(v)[i])
                || is_lower_hex_letter(lower_hex(v)[i])),
{
    assert forall|i: int| 0 <= i < 2 * v.len() implies (is_dec_digit(#[trigger] lower_hex(v)[i])
        || is_lower_hex_letter(lower_hex(v)[i])) by {
        let b = v[i / 2] as int;
        assert(0 <= b / 16 < 16);
        assert(0 <= b % 16 < 16);
    }
}

/// The EIP-55 round trip on a 20-byte value: its lowercase hex encoding is a
/// valid Ethereum address whose checksum check is skipped; its checksummed
/// rendering is valid with the checksum check passed; and turning over the
/// case of any one letter of that rendering breaks the checksum, so that the
/// checksum check fails wherever an uppercase letter remains.
pub proof fn lemma_eip55_round_trip(value: Seq<u8>)
    requires
        value.len() == 20,
    ensures
        all_passed(eth_checks(prefixed(lower_hex(value)))),
        eth_checks(prefixed(lower_hex(value)))[3] == ("EIP-55 checksum"@, true,
            "skipped (all lowercase)"@),
        eip55_valid(checksum_hex(value)),
        all_passed(eth_checks(prefixed(checksum_hex(value)))),
        eth_checks(prefixed(checksum_hex(value)))[3].1,
        forall|i: int|
            0 <= i < 40 && is_lower_hex_letter(#[trigger] lower_hex(value)[i]) ==> {
                &&& !eip55_valid(flip_case(checksum_hex(value), i))
                &&& has_upper(flip_case(checksum_hex(value), i)) ==> !eth_checks(
                    prefixed(flip_case(checksum_hex(value), i)),
                )[3].1
            },
{
    let lower = lower_hex(value);
    let d = keccak256_of(lower);
    let mixed = checksum_hex(value);
    lemma_lower_hex(value);
    lemma_prefixed(lower);
    lemma_prefixed(mixed);
    // the lowercase encoding
    assert(is_hex_text(lower));
    assert(!has_upper(lower)) by {
        assert forall|i: int| 0 <= i < lower.len() implies !(65 <= #[trigger] lower[i] <= 90) by {}
    }
    assert(all_passed(eth_checks(prefixed(lower))));
    // the checksummed rendering
    assert(lower_bytes(mixed) =~= lower);
    assert forall|i: int| 0 <= i < 40 implies #[trigger] position_ok(mixed, d, i) by {}
    assert(eip55_rule(mixed, d));
    assert(eip55_valid(mixed));
    assert forall|i: int| 0 <= i < mixed.len() implies is_hex_byte(#[trigger] mixed[i]) by {}
    assert(is_hex_text(mixed));
    assert(all_passed(eth_checks(prefixed(mixed))));
    // one letter turned over
    assert forall|i: int|
        0 <= i < 40 && is_lower_hex_letter(#[trigger] lower_hex(value)[i]) implies {
        &&& !eip55_valid(flip_case(mixed, i))
        &&& has_upper(flip_case(mixed, i)) ==> !eth_checks(prefixed(flip_case(mixed, i)))[3].1
    } by {
        let f = flip_case(mixed, i);
        assert(lower_bytes(f) =~= lower);
        assert(!position_ok(f, d, i));
        assert(!eip55_valid(f));
        lemma_prefixed(f);
    }
}

/// An Ethereum address of 41 or 43 bytes fails the length check.
pub proof fn lemma_eth_length_off_by_one(address: &str, decode: bool)
    requires
        address.spec_bytes().len() == 41 || address.spec_bytes().len() == 43,
    ensures
        !validation_of(ChainKind::Ethereum, address, decode).1[1].1,
        !validation_of(ChainKind::Ethereum, address, decode).0,
{
    let checks = validation_of(ChainKind::Ethereum, address, decode).1;
    assert(!checks[1].1);
}

/// An Ethereum address of 42 bytes that starts with `0x` but holds a byte
/// other than a hex digit passes the length check and fails the hex check.
pub proof fn lemma_eth_non_hex(address: &str, decode: bool, i: int)
    requires
        starts_0x(address.spec_bytes()),
        address.spec_bytes().len() == 42,
        2 <= i < 42,
        !is_hex_byte(address.spec_bytes()[i]),
    ensures
        validation_of(ChainKind::Ethereum, address, decode).1[1].1,
        !validation_of(ChainKind::Ethereum, address, decode).1[2].1,
        !validation_of(ChainKind::Ethereum, address, decode).0,
{
    let b = address.spec_bytes();
    assert(after_prefix(b)[i - 2] == b[i]);
    assert(!is_hex_text(after_prefix(b)));
    let checks = validation_of(ChainKind::Ethereum, address, decode).1;
    assert(!checks[2].1);
}

/// A Bitcoin address of 34 bytes that starts with `1` and holds a `0` fails
/// the Base58 check, and so is invalid.
pub proof fn lemma_btc_zero_rejected(address: &str, decode: bool, i: int)
    requires
        address.spec_bytes().len() == 34,
        address.spec_bytes()[0] == 49,
        0 <= i < 34,
        address.spec_bytes()[i] == 48,
    ensures
        !validation_of(ChainKind::Bitcoin, address, decode).1[2].1,
        !validation_of(ChainKind::Bitcoin, address, decode).0,
{
    let b = address.spec_bytes();
    assert(!is_base58_text(b));
    let checks = validation_of(ChainKind::Bitcoin, address, decode).1;
    assert(!checks[2].1);
}

/// A Solana address of 44 Base58 characters that starts with `6` fails the
/// first-character check, and so is invalid whether or not it is decoded.
pub proof fn lemma_sol_first_char(address: &str, decode: bool)
    requires
        address.spec_bytes().len() == 44,
        is_base58_text(address.spec_bytes()),
        address.spec_bytes()[0] == 54,
    ensures
        !validation_of(ChainKind::Solana, address, decode).1[2].1,
        !validation_of(ChainKind::Solana, address, decode).0,
{
    let checks = validation_of(ChainKind::Solana, address, decode).1;
    assert(!checks[2].1);
}

} // verus!
