//! Rendering of the human-readable details attached to each check.

use vstd::prelude::*;

verus! {

/// The text of a boolean, as Rust's formatting writes it.
pub open spec fn bool_text(b: bool) -> Seq<char> {
    if b {
        "true"@
    } else {
        "false"@
    }
}

/// The character of a decimal digit `d < 10`.
pub open spec fn digit_char(d: nat) -> char {
    ((d + 48) as u8) as char
}

/// The decimal rendering of `n`, without sign or leading zeros.
pub open spec fn decimal(n: nat) -> Seq<char>
    decreases n,
{
    if n < 10 {
        seq![digit_char(n)]
    } else {
        decimal(n / 10).push(digit_char(n % 10))
    }
}

/// `"<ok> (actual: <n>)"`: a verdict followed by the observed quantity.
pub open spec fn count_text(ok: bool, n: nat) -> Seq<char> {
    bool_text(ok) + " (actual: "@ + decimal(n) + ")"@
}

/// `"<ok> (actual: <c>)"`: a verdict followed by the observed character.
pub open spec fn char_text(ok: bool, c: char) -> Seq<char> {
    bool_text(ok) + " (actual: "@ + seq![c] + ")"@
}

/// Relies on `String::push`: appends one character.
#[verifier::external_body]
pub(crate) fn push_char(s: &mut String, c: char)
    ensures
        final(s)@ == old(s)@.push(c),
{
    s.push(c)
}

/// The text of a boolean.
pub fn render_bool(b: bool) -> (r: String)
    ensures
        r@ == bool_text(b),
{
    if b {
        String::from_str("true")
    } else {
        String::from_str("false")
    }
}

/// Appends the decimal rendering of `n`.
pub fn push_decimal(s: &mut String, n: usize)
    ensures
        final(s)@ == old(s)@ + decimal(n as nat),
    decreases n,
{
    let d: usize = n % 10;
    if n >= 10 {
        push_decimal(s, n / 10);
    }
    let c: char = ((d as u8) + 48u8) as char;
    push_char(s, c);
    proof {
        assert(s@ =~= old(s)@ + decimal(n as nat));
    }
}

/// `"<ok> (actual: <n>)"`.
pub fn render_count(ok: bool, n: usize) -> (r: String)
    ensures
        r@ == count_text(ok, n as nat),
{
    let mut s = render_bool(ok);
    s.append(" (actual: ");
    push_decimal(&mut s, n);
    s.append(")");
    proof {
        assert(s@ =~= count_text(ok, n as nat));
    }
    s
}

/// `"<ok> (actual: <c>)"`.
pub fn render_char(ok: bool, c: char) -> (r: String)
    ensures
        r@ == char_text(ok, c),
{
    let mut s = render_bool(ok);
    s.append(" (actual: ");
    push_char(&mut s, c);
    s.append(")");
    proof {
        assert(s@ =~= char_text(ok, c));
    }
    s
}

} // verus!
