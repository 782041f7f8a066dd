//! Decimal rendering of integers, used for data-row values and for the
//! protocol-version text in error messages.
use vstd::prelude::*;

verus! {

pub open spec fn dec_digit(d: int) -> char
    recommends
        0 <= d < 10,
{
    if d == 0 {
        '0'
    } else if d == 1 {
        '1'
    } else if d == 2 {
        '2'
    } else if d == 3 {
        '3'
    } else if d == 4 {
        '4'
    } else if d == 5 {
        '5'
    } else if d == 6 {
        '6'
    } else if d == 7 {
        '7'
    } else if d == 8 {
        '8'
    } else {
        '9'
    }
}

/// The decimal digits of a non-negative value, most significant first.
pub open spec fn dec_digits(n: nat) -> Seq<char>
    decreases n,
{
    if n < 10 {
        seq![dec_digit(n as int)]
    } else {
        dec_digits(n / 10) + seq![dec_digit((n % 10) as int)]
    }
}

/// The decimal form of a signed value: a minus sign for negatives, then
/// the digits of the magnitude.
pub open spec fn dec_str(v: int) -> Seq<char> {
    if v < 0 {
        seq!['-'] + dec_digits((-v) as nat)
    } else {
        dec_digits(v as nat)
    }
}

/// Relies on `i64`'s `Display` implementation: it writes exactly the decimal
/// digits of the value, preceded by a minus sign when it is negative.
#[verifier::external_body]
pub fn i64_to_decimal(v: i64) -> (r: String)
    ensures
        r@ == dec_str(v as int),
{
    format!("{}", v)
}

} // verus!
