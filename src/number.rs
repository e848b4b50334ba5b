//! Unsigned integers as decimal text.
use vstd::prelude::*;
use crate::json::{Json, no_esc};

verus! {

/// An ASCII decimal digit.
pub open spec fn is_digit(c: char) -> bool {
    '0' <= c && c <= '9'
}

/// Whether `s` holds decimal digits only.
pub open spec fn all_digits(s: Seq<char>) -> bool {
    forall|i: int| 0 <= i < s.len() ==> is_digit(#[trigger] s[i])
}

/// The number that the digits `s` stand for.
pub open spec fn digits_value(s: Seq<char>) -> nat
    decreases s.len(),
{
    if s.len() == 0 {
        0
    } else {
        digits_value(s.drop_last()) * 10 + ((s.last() as int - '0' as int) as nat)
    }
}

/// The digit that stands for `d`, for `d` below ten.
pub open spec fn digit_char(d: nat) -> char {
    if d == 0 { '0' }
    else if d == 1 { '1' }
    else if d == 2 { '2' }
    else if d == 3 { '3' }
    else if d == 4 { '4' }
    else if d == 5 { '5' }
    else if d == 6 { '6' }
    else if d == 7 { '7' }
    else if d == 8 { '8' }
    else { '9' }
}

/// The decimal text of `n`, without sign or leading zeros.
pub open spec fn decimal_text(n: nat) -> Seq<char>
    decreases n,
{
    if n < 10 {
        seq![digit_char(n)]
    } else {
        decimal_text(n / 10).push(digit_char(n % 10))
    }
}

/// `s` with one leading `+` taken off.
pub open spec fn unsigned_digits(s: Seq<char>) -> Seq<char> {
    if s.len() > 0 && s[0] == '+' { s.drop_first() } else { s }
}

/// The `u64` that `s` reads as: an optional `+`, then one or more digits,
/// of a value that fits.
pub open spec fn parsed_u64(s: Seq<char>) -> Option<u64> {
    let d = unsigned_digits(s);
    if d.len() > 0 && all_digits(d) && digits_value(d) <= u64::MAX {
        Some(digits_value(d) as u64)
    } else {
        None
    }
}

/// The `u64` that a JSON number's text stands for, where it is one.
pub open spec fn number_u64(t: Seq<char>) -> Option<u64> {
    if t.len() > 0 && t[0] == '+' { None } else { parsed_u64(t) }
}

/// The value of `v` as a `u64`, where it is a number that is one.
pub open spec fn as_u64(v: Json) -> Option<u64> {
    match v {
        Json::Number(t) => number_u64(t@),
        _ => None,
    }
}

/// Decimal text holds digits only.
pub proof fn lemma_decimal_text(n: nat)
    ensures
        all_digits(decimal_text(n)),
        no_esc(decimal_text(n)),
    decreases n,
{
    if n >= 10 {
        lemma_decimal_text(n / 10);
    }
}

/// Relies on `u64`'s `Display`, through `to_string`: the decimal digits of
/// `n`, without sign or leading zeros.
#[verifier::external_body]
pub(crate) fn decimal(n: u64) -> (r: String)
    ensures
        r@ == decimal_text(n as nat),
{
    n.to_string()
}

/// Relies on `str::parse::<u64>`: an optional `+` followed by one or more
/// ASCII digits whose value fits, and nothing else, is accepted.
#[verifier::external_body]
pub(crate) fn parse_u64(s: &str) -> (r: Option<u64>)
    ensures
        r == parsed_u64(s@),
{
    s.parse::<u64>().ok()
}

impl Json {
    /// The value of this as a `u64`, where it is a number that is one.
    pub fn as_u64(&self) -> (r: Option<u64>)
        ensures
            r == as_u64(*self),
    {
        match self {
            Json::Number(t) => {
                let s = t.as_str();
                if s.unicode_len() > 0 && s.get_char(0) == '+' {
                    None
                } else {
                    parse_u64(s)
                }
            },
            _ => None,
        }
    }
}

} // verus!
