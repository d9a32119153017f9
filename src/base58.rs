//! The Base58 alphabet (Bitcoin/Solana variant) and decoding.

use vstd::prelude::*;

verus! {

/// A byte of the Base58 alphabet: `1-9`, `A-Z` without `I` and `O`,
/// `a-z` without `l`.
pub open spec fn is_base58_byte(c: u8) -> bool {
    ||| 49 <= c <= 57  // '1'..='9'
    ||| 65 <= c <= 72  // 'A'..='H'
    ||| 74 <= c <= 78  // 'J'..='N'
    ||| 80 <= c <= 90  // 'P'..='Z'
    ||| 97 <= c <= 107  // 'a'..='k'
    ||| 109 <= c <= 122  // 'm'..='z'
}

/// Every byte lies in the Base58 alphabet.
pub open spec fn all_base58(s: Seq<u8>) -> bool {
    forall|i: int| 0 <= i < s.len() ==> is_base58_byte(#[trigger] s[i])
}

/// A non-empty text made of Base58 characters only.
pub open spec fn is_base58_text(s: Seq<u8>) -> bool {
    s.len() > 0 && all_base58(s)
}

/// The bytes that `bs58` decodes a text of the Base58 alphabet to.
pub uninterp spec fn base58_decoded(s: Seq<u8>) -> Seq<u8>;

/// Why a text does not decode as Base58.
#[derive(Debug, Clone, Copy, PartialEq, Eq)]
pub enum Base58Error {
    EmptyInput,
    InvalidCharacter,
}

/// Whether a byte lies in the Base58 alphabet.
pub fn is_base58_char(c: u8) -> (r: bool)
    ensures
        r == is_base58_byte(c),
{
    (49 <= c && c <= 57) || (65 <= c && c <= 72) || (74 <= c && c <= 78) || (80 <= c && c <= 90)
        || (97 <= c && c <= 107) || (109 <= c && c <= 122)
}

/// The cheap pre-check: the text is non-empty and every character lies in
/// the Base58 alphabet.
pub fn is_base58(s: &[u8]) -> (r: bool)
    ensures
        r == is_base58_text(s@),
{
    if s.len() == 0 {
        return false;
    }
    let mut i: usize = 0;
    while i < s.len()
        invariant
            i <= s@.len(),
            forall|j: int| 0 <= j < i ==> is_base58_byte(#[trigger] s@[j]),
        decreases s@.len() - i,
    {
        if !is_base58_char(s[i]) {
            return false;
        }
        i += 1;
    }
    true
}

/// Relies on `bs58::decode(..).into_vec()` with the default (Bitcoin)
/// alphabet: it fails exactly when a byte lies outside the alphabet, and
/// otherwise returns the decoded bytes.
#[verifier::external_body]
fn bs58_decode(s: &[u8]) -> (r: Option<Vec<u8>>)
    ensures
        r is Some <==> all_base58(s@),
        r matches Some(v) ==> v@ == base58_decoded(s@),
{
    bs58::decode(s).into_vec().ok()
}

/// Decodes a Base58 text into its big-endian bytes.
pub fn decode_base58(s: &[u8]) -> (r: Result<Vec<u8>, Base58Error>)
    ensures
        s@.len() == 0 ==> r == Err::<Vec<u8>, Base58Error>(Base58Error::EmptyInput),
        s@.len() > 0 && !all_base58(s@) ==> r == Err::<Vec<u8>, Base58Error>(
            Base58Error::InvalidCharacter,
        ),
        is_base58_text(s@) ==> (r matches Ok(v) && v@ == base58_decoded(s@)),
{
    if s.len() == 0 {
        return Err(Base58Error::EmptyInput);
    }
    match bs58_decode(s) {
        Some(v) => Ok(v),
        None => Err(Base58Error::InvalidCharacter),
    }
}

} // verus!
