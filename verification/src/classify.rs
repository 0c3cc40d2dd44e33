//! Predicates over a single scalar value, and ASCII lowercasing.
//!
//! Every function here is total: a value outside 7-bit ASCII is simply
//! no letter, no digit, not printable and no whitespace.

use vstd::prelude::*;

verus! {

/// The distance from an upper-case ASCII letter to its lower-case form.
pub const CASE_OFFSET: u32 = 32;

/// `ch` is one of `a`..`z` or `A`..`Z`.
pub open spec fn alpha(ch: char) -> bool {
    ('a' <= ch && ch <= 'z') || ('A' <= ch && ch <= 'Z')
}

/// `ch` is one of `0`..`9`.
pub open spec fn digit(ch: char) -> bool {
    '0' <= ch && ch <= '9'
}

/// `ch` is a letter or a digit.
pub open spec fn alphanum(ch: char) -> bool {
    alpha(ch) || digit(ch)
}

/// `ch` lies in the visible 7-bit range, space included.
pub open spec fn print(ch: char) -> bool {
    ' ' <= ch && ch <= '~'
}

/// `ch` is a space, a tab, a carriage return or a line feed.
pub open spec fn whitespace(ch: char) -> bool {
    ch == ' ' || ch == '\t' || ch == '\r' || ch == '\n'
}

/// `ch` is one of `A`..`Z`.
pub open spec fn upper(ch: char) -> bool {
    'A' <= ch && ch <= 'Z'
}

/// The lower-case form of `ch`: an upper-case ASCII letter moves by the
/// fixed offset, every other value stays.
pub open spec fn lowered(ch: char) -> char {
    if upper(ch) {
        (ch as u32 + CASE_OFFSET) as char
    } else {
        ch
    }
}

/// Returns true if `ch` is in `[a-zA-Z]`.
#[verifier::when_used_as_spec(alpha)]
pub fn is_alpha(ch: char) -> (b: bool)
    ensures
        b == alpha(ch),
{
    (ch >= 'a' && ch <= 'z') || (ch >= 'A' && ch <= 'Z')
}

/// Returns true if `ch` is in `[0-9]`.
#[verifier::when_used_as_spec(digit)]
pub fn is_digit(ch: char) -> (b: bool)
    ensures
        b == digit(ch),
{
    ch >= '0' && ch <= '9'
}

/// Returns true if `ch` is a letter or a digit.
#[verifier::when_used_as_spec(alphanum)]
pub fn is_alphanum(ch: char) -> (b: bool)
    ensures
        b == alphanum(ch),
        b == (is_alpha(ch) || is_digit(ch)),
{
    is_alpha(ch) || is_digit(ch)
}

/// Returns true if `ch` is 7-bit ASCII and not a control character.
#[verifier::when_used_as_spec(print)]
pub fn is_print(ch: char) -> (b: bool)
    ensures
        b == print(ch),
{
    ch >= ' ' && ch <= '~'
}

/// Returns true if `ch` is `' '`, `'\t'`, `'\r'` or `'\n'`.
#[verifier::when_used_as_spec(whitespace)]
pub fn is_whitespace(ch: char) -> (b: bool)
    ensures
        b == whitespace(ch),
{
    ch == ' ' || ch == '\t' || ch == '\r' || ch == '\n'
}

/// Returns `ch` as lower case.
#[verifier::when_used_as_spec(lowered)]
pub fn lower_char(ch: char) -> (r: char)
    ensures
        r == lowered(ch),
        !upper(ch) ==> r == ch,
        upper(ch) ==> 'a' <= r && r <= 'z' && r as int - 'a' as int == ch as int - 'A' as int,
{
    if ch >= 'A' && ch <= 'Z' {
        let code: u32 = ch as u32 + CASE_OFFSET;
        let low: u8 = code as u8;
        low as char
    } else {
        ch
    }
}

} // verus!
