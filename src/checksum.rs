//! The EIP-55 mixed-case checksum of Ethereum addresses.

use sha3::Digest;
use vstd::prelude::*;
use vstd::string::StringSliceAdditionalSpecFns;

verus! {

/// The Keccak-256 digest of `data`, as the `sha3` crate computes it.
pub uninterp spec fn keccak256_of(data: Seq<u8>) -> Seq<u8>;

/// Relies on `sha3::Keccak256::digest`: the 32-byte Keccak-256 digest (the
/// pre-standard padding, not SHA3-256), a function of the input alone.
#[verifier::external_body]
fn keccak256(data: &[u8]) -> (r: Vec<u8>)
    ensures
        r@ == keccak256_of(data@),
        r@.len() == 32,
{
    sha3::Keccak256::digest(data).to_vec()
}

/// `0-9`.
pub open spec fn is_dec_digit(c: u8) -> bool {
    48 <= c <= 57
}

/// `a-f`.
pub open spec fn is_lower_hex_letter(c: u8) -> bool {
    97 <= c <= 102
}

/// `A-F`.
pub open spec fn is_upper_hex_letter(c: u8) -> bool {
    65 <= c <= 70
}

/// A hexadecimal digit, in either case.
pub open spec fn is_hex_byte(c: u8) -> bool {
    is_dec_digit(c) || is_lower_hex_letter(c) || is_upper_hex_letter(c)
}

/// `A-Z`.
pub open spec fn is_ascii_upper(c: u8) -> bool {
    65 <= c <= 90
}

/// ASCII lowercase of one byte.
pub open spec fn ascii_lower(c: u8) -> u8 {
    if is_ascii_upper(c) {
        (c + 32) as u8
    } else {
        c
    }
}

/// ASCII lowercase of a text.
pub open spec fn lower_bytes(s: Seq<u8>) -> Seq<u8> {
    Seq::new(s.len(), |i: int| ascii_lower(s[i]))
}

/// The nibble of `digest` that governs hex position `i`: the high half of
/// byte `i / 2` for even `i`, the low half for odd `i`.
pub open spec fn nibble(digest: Seq<u8>, i: int) -> int {
    if i % 2 == 0 {
        digest[i / 2] as int / 16
    } else {
        digest[i / 2] as int % 16
    }
}

/// Position `i` of `hex` agrees with `digest`: a decimal digit always does; a
/// hex letter must be uppercase exactly when its nibble is at least 8; any
/// other byte never does.
pub open spec fn position_ok(hex: Seq<u8>, digest: Seq<u8>, i: int) -> bool {
    let c = hex[i];
    if is_dec_digit(c) {
        true
    } else if is_lower_hex_letter(c) || is_upper_hex_letter(c) {
        (nibble(digest, i) >= 8) == is_upper_hex_letter(c)
    } else {
        false
    }
}

/// `hex` holds forty characters whose case agrees with `digest` everywhere.
pub open spec fn eip55_rule(hex: Seq<u8>, digest: Seq<u8>) -> bool {
    hex.len() == 40 && forall|i: int| 0 <= i < 40 ==> #[trigger] position_ok(hex, digest, i)
}

/// The EIP-55 checksum of the forty characters `hex` holds: the digest is
/// that of their lowercase form.
pub open spec fn eip55_valid(hex: Seq<u8>) -> bool {
    eip55_rule(hex, keccak256_of(lower_bytes(hex)))
}

/// Whether the case of each letter of `hex` agrees with `digest`.
pub fn eip55_matches(hex: &[u8], digest: &[u8]) -> (r: bool)
    requires
        digest@.len() == 32,
    ensures
        r == eip55_rule(hex@, digest@),
{
    if hex.len() != 40 {
        return false;
    }
    let mut i: usize = 0;
    while i < 40
        invariant
            hex@.len() == 40,
            digest@.len() == 32,
            i <= 40,
            forall|j: int| 0 <= j < i ==> #[trigger] position_ok(hex@, digest@, j),
        decreases 40 - i,
    {
        let c = hex[i];
        let byte = digest[i / 2];
        let n: u8 = if i % 2 == 0 { byte >> 4 } else { byte & 0xf };
        proof {
            assert(byte >> 4 == byte / 16) by (bit_vector);
            assert(byte & 0xf == byte % 16) by (bit_vector);
        }
        let ok = if 48 <= c && c <= 57 {
            true
        } else if (97 <= c && c <= 102) || (65 <= c && c <= 70) {
            (n >= 8) == (65 <= c && c <= 70)
        } else {
            false
        };
        if !ok {
            assert(!position_ok(hex@, digest@, i as int));
            return false;
        }
        i += 1;
    }
    true
}

/// ASCII lowercase of a text.
pub fn to_lower_bytes(s: &[u8]) -> (r: Vec<u8>)
    ensures
        r@ == lower_bytes(s@),
{
    let mut r: Vec<u8> = Vec::new();
    let mut i: usize = 0;
    while i < s.len()
        invariant
            i <= s@.len(),
            r@ == Seq::new(i as nat, |j: int| ascii_lower(s@[j])),
        decreases s@.len() - i,
    {
        let c = s[i];
        let l: u8 = if 65 <= c && c <= 90 { c + 32 } else { c };
        r.push(l);
        i += 1;
        proof {
            assert(r@ =~= Seq::new(i as nat, |j: int| ascii_lower(s@[j])));
        }
    }
    proof {
        assert(r@ =~= lower_bytes(s@));
    }
    r
}

/// Verifies the EIP-55 checksum of the forty hex characters `hex`, hashing
/// their lowercase form.
pub fn eip55_checksum_holds(hex: &[u8]) -> (r: bool)
    ensures
        r == eip55_valid(hex@),
{
    let lower = to_lower_bytes(hex);
    let digest = keccak256(lower.as_slice());
    eip55_matches(hex, digest.as_slice())
}

/// The characters after the leading `0x`.
pub open spec fn after_prefix(b: Seq<u8>) -> Seq<u8> {
    b.subrange(2, b.len() as int)
}

/// `0x` opens the text.
pub open spec fn starts_0x(b: Seq<u8>) -> bool {
    b.len() >= 2 && b[0] == 48 && b[1] == 120
}

/// Verifies the EIP-55 checksum of an address that starts with `0x`.
pub fn validate_eth_checksum(address: &str) -> (r: bool)
    requires
        starts_0x(address.spec_bytes()),
    ensures
        r == eip55_valid(after_prefix(address.spec_bytes())),
{
    let b = address.as_bytes();
    let hex = vstd::slice::slice_subrange(b, 2, b.len());
    eip55_checksum_holds(hex)
}

} // verus!
