//! The per-chain rule sets and the dispatch over them.

use vstd::prelude::*;
use vstd::string::StringSliceAdditionalSpecFns;
use crate::base58::{
    base58_decoded, decode_base58, is_base58, is_base58_text, Base58Error,
};
use crate::checksum::{
    after_prefix, eip55_valid, is_ascii_upper, is_hex_byte, starts_0x, validate_eth_checksum,
};
use crate::report::{all_passed, CheckView, ValidationResult};
use vstd::string::StrSliceExecFns;
use crate::text::{bool_text, char_text, count_text, render_bool, render_char, render_count};

verus! {

/// The networks whose addresses can be validated.
#[derive(Debug, Clone, Copy, PartialEq, Eq)]
pub enum ChainKind {
    Ethereum,
    Bitcoin,
    Solana,
}

/// A chain identifier that names none of the supported networks.
#[derive(Debug, Clone, Copy, PartialEq, Eq)]
pub struct UnsupportedChain;

/// The report whose checks are `checks`, valid exactly when all of them passed.
pub open spec fn report_of(checks: Seq<CheckView>) -> (bool, Seq<CheckView>) {
    (all_passed(checks), checks)
}

/// An even number of hexadecimal digits, in either case.
pub open spec fn is_hex_text(s: Seq<u8>) -> bool {
    s.len() % 2 == 0 && forall|i: int| 0 <= i < s.len() ==> is_hex_byte(#[trigger] s[i])
}

/// Some byte is an uppercase ASCII letter.
pub open spec fn has_upper(s: Seq<u8>) -> bool {
    exists|i: int| 0 <= i < s.len() && is_ascii_upper(#[trigger] s[i])
}

/// Relies on `hex::decode`: it succeeds exactly on an even number of
/// hexadecimal digits of either case.
#[verifier::external_body]
fn hex_decodes(data: &[u8]) -> (r: bool)
    ensures
        r == is_hex_text(data@),
{
    hex::decode(data).is_ok()
}

/// The checksum check on the hex part of an Ethereum address.
pub open spec fn eth_checksum_check(hex: Seq<u8>) -> CheckView {
    if has_upper(hex) {
        ("EIP-55 checksum"@, eip55_valid(hex), bool_text(eip55_valid(hex)))
    } else {
        ("EIP-55 checksum"@, true, "skipped (all lowercase)"@)
    }
}

/// The checks made on an Ethereum address of bytes `b`.
pub open spec fn eth_checks(b: Seq<u8>) -> Seq<CheckView> {
    let p = starts_0x(b);
    let l = b.len() == 42;
    let head = seq![
        ("Starts with 0x"@, p, bool_text(p)),
        ("Length (42 chars)"@, l, count_text(l, b.len())),
    ];
    if p {
        let hex = after_prefix(b);
        let h = is_hex_text(hex);
        head + seq![("Valid hex characters"@, h, bool_text(h)), eth_checksum_check(hex)]
    } else {
        head
    }
}

/// Whether some byte is an uppercase ASCII letter.
fn any_upper(s: &[u8]) -> (r: bool)
    ensures
        r == has_upper(s@),
{
    let mut i: usize = 0;
    while i < s.len()
        invariant
            i <= s@.len(),
            forall|j: int| 0 <= j < i ==> !is_ascii_upper(#[trigger] s@[j]),
        decreases s@.len() - i,
    {
        if 65 <= s[i] && s[i] <= 90 {
            assert(is_ascii_upper(s@[i as int]));
            return true;
        }
        i += 1;
    }
    false
}

/// Validates an Ethereum address: `0x` prefix, length 42, hex digits after
/// the prefix, and the EIP-55 checksum where any letter is uppercase.
pub fn validate_eth_address(address: &str, _verbose: bool) -> (r: ValidationResult)
    ensures
        r.wf(),
        r@ == report_of(eth_checks(address.spec_bytes())),
{
    let b = address.as_bytes();
    let mut result = ValidationResult::new();
    let starts_with_0x = b.len() >= 2 && b[0] == 48 && b[1] == 120;
    result.add_check("Starts with 0x", starts_with_0x, render_bool(starts_with_0x));
    let correct_length = b.len() == 42;
    result.add_check("Length (42 chars)", correct_length, render_count(correct_length, b.len()));
    if starts_with_0x {
        let hex = vstd::slice::slice_subrange(b, 2, b.len());
        let is_valid_hex = hex_decodes(hex);
        result.add_check("Valid hex characters", is_valid_hex, render_bool(is_valid_hex));
        if any_upper(hex) {
            let checksum_valid = validate_eth_checksum(address);
            result.add_check("EIP-55 checksum", checksum_valid, render_bool(checksum_valid));
        } else {
            result.add_check("EIP-55 checksum", true, String::from_str("skipped (all lowercase)"));
        }
    }
    proof {
        assert(result@.1 =~= eth_checks(address.spec_bytes()));
    }
    result
}

/// How a Bitcoin address announces its type by its first characters.
#[derive(Debug, Clone, Copy, PartialEq, Eq)]
pub enum BitcoinKind {
    Legacy,
    P2sh,
    Bech32,
    Unknown,
}

/// The type that the first characters of `b` announce.
pub open spec fn btc_kind(b: Seq<u8>) -> BitcoinKind {
    if b.len() > 0 && b[0] == 49 {
        BitcoinKind::Legacy
    } else if b.len() > 0 && b[0] == 51 {
        BitcoinKind::P2sh
    } else if b.len() >= 3 && b[0] == 98 && b[1] == 99 && b[2] == 49 {
        BitcoinKind::Bech32
    } else {
        BitcoinKind::Unknown
    }
}

/// The label under which each type is reported.
pub open spec fn btc_kind_text(k: BitcoinKind) -> Seq<char> {
    match k {
        BitcoinKind::Legacy => "Legacy (starts with 1)"@,
        BitcoinKind::P2sh => "P2SH (starts with 3)"@,
        BitcoinKind::Bech32 => "Bech32 (starts with bc1)"@,
        BitcoinKind::Unknown => "Unknown"@,
    }
}

/// The lengths each type admits.
pub open spec fn btc_length_ok(k: BitcoinKind, n: nat) -> bool {
    match k {
        BitcoinKind::Legacy => n == 33 || n == 34,
        BitcoinKind::P2sh => n == 34,
        BitcoinKind::Bech32 => 42 <= n <= 62,
        BitcoinKind::Unknown => false,
    }
}

/// The checks made on a Bitcoin address of bytes `b`.
pub open spec fn btc_checks(b: Seq<u8>) -> Seq<CheckView> {
    let k = btc_kind(b);
    let t = k != BitcoinKind::Unknown;
    let l = btc_length_ok(k, b.len());
    let head = seq![
        ("Address type"@, t, btc_kind_text(k)),
        ("Length"@, l, count_text(l, b.len())),
    ];
    if k == BitcoinKind::Legacy || k == BitcoinKind::P2sh {
        let c = is_base58_text(b);
        head + seq![("Base58 characters"@, c, bool_text(c))]
    } else {
        head
    }
}

/// Classifies a Bitcoin address by its first characters.
pub fn classify_btc(b: &[u8]) -> (r: BitcoinKind)
    ensures
        r == btc_kind(b@),
{
    if b.len() > 0 && b[0] == 49 {
        BitcoinKind::Legacy
    } else if b.len() > 0 && b[0] == 51 {
        BitcoinKind::P2sh
    } else if b.len() >= 3 && b[0] == 98 && b[1] == 99 && b[2] == 49 {
        BitcoinKind::Bech32
    } else {
        BitcoinKind::Unknown
    }
}

impl BitcoinKind {
    /// The label under which the type is reported.
    pub fn label(self) -> (r: String)
        ensures
            r@ == btc_kind_text(self),
    {
        match self {
            BitcoinKind::Legacy => String::from_str("Legacy (starts with 1)"),
            BitcoinKind::P2sh => String::from_str("P2SH (starts with 3)"),
            BitcoinKind::Bech32 => String::from_str("Bech32 (starts with bc1)"),
            BitcoinKind::Unknown => String::from_str("Unknown"),
        }
    }

    /// Whether an address of this type may have `n` bytes.
    pub fn length_ok(self, n: usize) -> (r: bool)
        ensures
            r == btc_length_ok(self, n as nat),
    {
        match self {
            BitcoinKind::Legacy => n == 33 || n == 34,
            BitcoinKind::P2sh => n == 34,
            BitcoinKind::Bech32 => 42 <= n && n <= 62,
            BitcoinKind::Unknown => false,
        }
    }
}

/// Validates a Bitcoin address: its type, the length that type admits, and,
/// for the Base58 types, the alphabet.
pub fn validate_btc_address(address: &str, _verbose: bool) -> (r: ValidationResult)
    ensures
        r.wf(),
        r@ == report_of(btc_checks(address.spec_bytes())),
{
    let b = address.as_bytes();
    let mut result = ValidationResult::new();
    let kind = classify_btc(b);
    let known = !matches!(kind, BitcoinKind::Unknown);
    result.add_check("Address type", known, kind.label());
    let length_ok = kind.length_ok(b.len());
    result.add_check("Length", length_ok, render_count(length_ok, b.len()));
    if matches!(kind, BitcoinKind::Legacy) || matches!(kind, BitcoinKind::P2sh) {
        let is_b58 = is_base58(b);
        result.add_check("Base58 characters", is_b58, render_bool(is_b58));
    }
    proof {
        assert(result@.1 =~= btc_checks(address.spec_bytes()));
    }
    result
}

/// The outcome of decoding, as the decode checks see it: the decoded bytes,
/// or nothing where decoding failed.
pub open spec fn decoded_view(d: Result<Vec<u8>, Base58Error>) -> Option<Seq<u8>> {
    match d {
        Ok(v) => Some(v@),
        Err(_) => None,
    }
}

/// The decode checks, given the outcome of decoding.
pub open spec fn decode_checks(d: Option<Seq<u8>>) -> Seq<CheckView> {
    match d {
        Some(v) => seq![
            ("Base58 decoding"@, true, bool_text(true)),
            ("Decoded length (32 bytes)"@, v.len() == 32, count_text(v.len() == 32, v.len())),
        ],
        None => seq![("Base58 decoding"@, false, bool_text(false))],
    }
}

/// What decoding the text `b` gives.
pub open spec fn sol_decoded(b: Seq<u8>) -> Option<Seq<u8>> {
    if is_base58_text(b) {
        Some(base58_decoded(b))
    } else {
        None
    }
}

/// The first character of a text, or a space for the empty text.
pub open spec fn first_or_space(c: Seq<char>) -> char {
    if c.len() > 0 {
        c[0]
    } else {
        ' '
    }
}

/// The checks made on a Solana address of bytes `b` and characters `c`;
/// the decode checks only where `decode` is set.
pub open spec fn sol_checks(b: Seq<u8>, c: Seq<char>, decode: bool) -> Seq<CheckView> {
    let l = 32 <= b.len() <= 44;
    let s = is_base58_text(b);
    let f = b.len() > 0 && 49 <= b[0] <= 53;
    let head = seq![
        ("Length (32-44 chars)"@, l, count_text(l, b.len())),
        ("Base58 characters"@, s, bool_text(s)),
        ("First character (1-5)"@, f, char_text(f, first_or_space(c))),
    ];
    if decode {
        head + decode_checks(sol_decoded(b))
    } else {
        head
    }
}

/// Appends the decode checks for the outcome `decoded` of decoding.
pub fn add_decode_checks(result: &mut ValidationResult, decoded: &Result<Vec<u8>, Base58Error>)
    requires
        old(result).wf(),
    ensures
        final(result).wf(),
        final(result)@.1 == old(result)@.1 + decode_checks(decoded_view(*decoded)),
{
    let ghost before = result@.1;
    match decoded {
        Ok(v) => {
            result.add_check("Base58 decoding", true, render_bool(true));
            let n = v.len();
            result.add_check("Decoded length (32 bytes)", n == 32, render_count(n == 32, n));
        },
        Err(_) => {
            result.add_check("Base58 decoding", false, render_bool(false));
        },
    }
    proof {
        assert(result@.1 =~= before + decode_checks(decoded_view(*decoded)));
    }
}

/// Validates a Solana address: length 32 to 44, the Base58 alphabet, a first
/// character in `1-5`, and, where `perform_decode_check` is set, that it
/// decodes to 32 bytes.
pub fn validate_sol_address(address: &str, perform_decode_check: bool) -> (r: ValidationResult)
    ensures
        r.wf(),
        r@ == report_of(sol_checks(address.spec_bytes(), address@, perform_decode_check)),
{
    let b = address.as_bytes();
    let mut result = ValidationResult::new();
    let n = b.len();
    let length_ok = 32 <= n && n <= 44;
    result.add_check("Length (32-44 chars)", length_ok, render_count(length_ok, n));
    let is_b58 = is_base58(b);
    result.add_check("Base58 characters", is_b58, render_bool(is_b58));
    let first_char_ok = n > 0 && 49 <= b[0] && b[0] <= 53;
    let first = if address.is_empty() {
        ' '
    } else {
        address.get_char(0)
    };
    result.add_check("First character (1-5)", first_char_ok, render_char(first_char_ok, first));
    if perform_decode_check {
        let decoded = decode_base58(b);
        proof {
            assert(decoded_view(decoded) == sol_decoded(b@));
        }
        add_decode_checks(&mut result, &decoded);
    }
    proof {
        assert(result@.1 =~= sol_checks(address.spec_bytes(), address@, perform_decode_check));
    }
    result
}

/// The checks made on an address of bytes `b` and characters `c` for `chain`.
pub open spec fn chain_checks(chain: ChainKind, b: Seq<u8>, c: Seq<char>, decode: bool) -> Seq<
    CheckView,
> {
    match chain {
        ChainKind::Ethereum => eth_checks(b),
        ChainKind::Bitcoin => btc_checks(b),
        ChainKind::Solana => sol_checks(b, c, decode),
    }
}

/// The report on `address` for `chain`, under the given decode policy.
pub open spec fn validation_of(chain: ChainKind, address: &str, decode: bool) -> (
    bool,
    Seq<CheckView>,
) {
    report_of(chain_checks(chain, address.spec_bytes(), address@, decode))
}

/// Validates `address` under the rules of `chain`. The Base58 decode checks
/// of Solana are made only where `perform_decode_check` is set.
pub fn validate(chain: ChainKind, address: &str, perform_decode_check: bool) -> (r:
    ValidationResult)
    ensures
        r.wf(),
        r@ == validation_of(chain, address, perform_decode_check),
{
    match chain {
        ChainKind::Ethereum => validate_eth_address(address, perform_decode_check),
        ChainKind::Bitcoin => validate_btc_address(address, perform_decode_check),
        ChainKind::Solana => validate_sol_address(address, perform_decode_check),
    }
}

/// The chain that an identifier names: `eth`, `btc` or `sol`.
pub open spec fn chain_named(name: Seq<char>) -> Option<ChainKind> {
    if name == "eth"@ {
        Some(ChainKind::Ethereum)
    } else if name == "btc"@ {
        Some(ChainKind::Bitcoin)
    } else if name == "sol"@ {
        Some(ChainKind::Solana)
    } else {
        None
    }
}

/// Whether two texts hold the same characters.
fn same_text(a: &str, b: &str) -> (r: bool)
    ensures
        r == (a@ == b@),
{
    let n = a.unicode_len();
    if n != b.unicode_len() {
        return false;
    }
    let mut i: usize = 0;
    while i < n
        invariant
            n == a@.len(),
            n == b@.len(),
            i <= n,
            forall|j: int| 0 <= j < i ==> a@[j] == b@[j],
        decreases n - i,
    {
        if a.get_char(i) != b.get_char(i) {
            return false;
        }
        i += 1;
    }
    proof {
        assert(a@ =~= b@);
    }
    true
}

/// Selects the chain named by `name`, or reports that none is.
pub fn parse_chain(name: &str) -> (r: Result<ChainKind, UnsupportedChain>)
    ensures
        r matches Ok(k) ==> chain_named(name@) == Some(k),
        r is Err <==> chain_named(name@) is None,
{
    if same_text(name, "eth") {
        Ok(ChainKind::Ethereum)
    } else if same_text(name, "btc") {
        Ok(ChainKind::Bitcoin)
    } else if same_text(name, "sol") {
        Ok(ChainKind::Solana)
    } else {
        Err(UnsupportedChain)
    }
}

} // verus!
