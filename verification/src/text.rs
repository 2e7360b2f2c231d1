//! Text helpers: comparison, and the case mappings and number rendering
//! that the standard library provides.

use vstd::prelude::*;

verus! {

/// The lower-case form that `str::to_lowercase` gives to a text.
pub uninterp spec fn lowercased(s: Seq<char>) -> Seq<char>;

/// The upper-case form that `str::to_uppercase` gives to a text.
pub uninterp spec fn uppercased(s: Seq<char>) -> Seq<char>;

/// The character of a decimal digit.
pub open spec fn digit_char(d: nat) -> char {
    if d == 0 {
        '0'
    } else if d == 1 {
        '1'
    } else if d == 2 {
        '2'
    } else if d == 3 {
        '3'
    } else if d == 4 {
        '4'
    } else if d == 5 {
        '5'
    } else if d == 6 {
        '6'
    } else if d == 7 {
        '7'
    } else if d == 8 {
        '8'
    } else {
        '9'
    }
}

/// The decimal digits of a natural number, without leading zeros.
pub open spec fn decimal_digits(n: nat) -> Seq<char>
    decreases n,
{
    if n < 10 {
        seq![digit_char(n)]
    } else {
        decimal_digits(n / 10).push(digit_char(n % 10))
    }
}

/// The decimal text of an integer: its digits, after a minus sign where it
/// is negative.
pub open spec fn decimal_text(i: int) -> Seq<char> {
    if i < 0 {
        seq!['-'] + decimal_digits((-i) as nat)
    } else {
        decimal_digits(i as nat)
    }
}

/// `str::to_lowercase`: the result is the lower-case form of the argument,
/// a function of the argument alone.
#[verifier::external_body]
pub(crate) fn lowercase(s: &str) -> (r: String)
    ensures
        r@ == lowercased(s@),
{
    s.to_lowercase()
}

/// `str::to_uppercase`: the result is the upper-case form of the argument,
/// a function of the argument alone.
#[verifier::external_body]
pub(crate) fn uppercase(s: &str) -> (r: String)
    ensures
        r@ == uppercased(s@),
{
    s.to_uppercase()
}

/// `i64::to_string`: the result is the decimal text of the argument, its
/// digits without leading zeros, after a minus sign where it is negative.
#[verifier::external_body]
pub(crate) fn decimal(i: i64) -> (r: String)
    ensures
        r@ == decimal_text(i as int),
{
    i.to_string()
}

/// Whether a string holds exactly the characters of `other`.
pub fn same_text(a: &String, other: &str) -> (r: bool)
    ensures
        r == (a@ == other@),
{
    let owned = other.to_owned();
    *a == owned
}

/// Whether two string slices hold the same characters.
pub fn same_str(a: &str, b: &str) -> (r: bool)
    ensures
        r == (a@ == b@),
{
    let left = a.to_owned();
    let right = b.to_owned();
    left == right
}

} // verus!
