//! Arbitrary-precision integers, as provided by `num_bigint::BigInt`.
//!
//! A `BigInt` is opaque to the verifier; `big_value` names the integer it
//! stands for, and each wrapper below states its result over that value.
use vstd::prelude::*;
use num_bigint::BigInt;
use vstd::arithmetic::power::pow;

verus! {

#[verifier::external_type_specification]
#[verifier::external_body]
pub struct ExBigInt(BigInt);

/// The mathematical integer that a `BigInt` holds.
pub uninterp spec fn big_value(b: BigInt) -> int;

/// The character of a decimal digit `d < 10`.
pub open spec fn digit_char(d: int) -> char {
    ((d + 48) as u8) as char
}

/// Whether `c` is an ASCII decimal digit.
pub open spec fn is_digit(c: char) -> bool {
    '0' <= c && c <= '9'
}

/// The value of an ASCII decimal digit.
pub open spec fn digit_value(c: char) -> int {
    (c as int) - 48
}

/// A non-empty string of ASCII decimal digits.
pub open spec fn is_numeral(s: Seq<char>) -> bool {
    s.len() > 0 && forall|i: int| 0 <= i < s.len() ==> is_digit(#[trigger] s[i])
}

/// The value of a string of decimal digits, most significant first.
pub open spec fn numeral_value(s: Seq<char>) -> int
    decreases s.len(),
{
    if s.len() == 0 {
        0
    } else {
        10 * numeral_value(s.drop_last()) + digit_value(s.last())
    }
}

/// The decimal text of `n`: no leading zeros, and `"0"` for zero.
pub open spec fn decimal_text(n: nat) -> Seq<char>
    decreases n,
{
    if n < 10 {
        seq![digit_char(n as int)]
    } else {
        decimal_text(n / 10).push(digit_char((n % 10) as int))
    }
}

/// Relies on `BigInt::parse_bytes` in radix 10: a non-empty run of ASCII
/// digits is read as its decimal value.
#[verifier::external_body]
pub(crate) fn big_parse_decimal(s: &str) -> (r: Option<BigInt>)
    ensures
        is_numeral(s@) ==> r.is_some() && big_value(r.unwrap()) == numeral_value(s@),
{
    BigInt::parse_bytes(s.as_bytes(), 10)
}

/// Relies on `From<u32> for BigInt`: the same value.
#[verifier::external_body]
pub(crate) fn big_from_u32(x: u32) -> (r: BigInt)
    ensures
        big_value(r) == x as int,
{
    BigInt::from(x)
}

/// Relies on `&BigInt * &BigInt`: the exact product.
#[verifier::external_body]
pub(crate) fn big_mul(a: &BigInt, b: &BigInt) -> (r: BigInt)
    ensures
        big_value(r) == big_value(*a) * big_value(*b),
{
    a * b
}

/// Relies on `&BigInt / &BigInt`, which truncates toward zero and so is the
/// floor quotient for a non-negative dividend and a positive divisor.
#[verifier::external_body]
pub(crate) fn big_div(a: &BigInt, b: &BigInt) -> (r: BigInt)
    requires
        big_value(*a) >= 0,
        big_value(*b) > 0,
    ensures
        big_value(r) == big_value(*a) / big_value(*b),
{
    a / b
}

/// Relies on `&BigInt % &BigInt`, the remainder of truncating division, which
/// for a non-negative dividend and a positive divisor is the floor remainder.
#[verifier::external_body]
pub(crate) fn big_rem(a: &BigInt, b: &BigInt) -> (r: BigInt)
    requires
        big_value(*a) >= 0,
        big_value(*b) > 0,
    ensures
        big_value(r) == big_value(*a) % big_value(*b),
{
    a % b
}

/// Relies on `BigInt::pow`: `base` raised to `exponent`.
#[verifier::external_body]
pub(crate) fn big_pow(base: &BigInt, exponent: u32) -> (r: BigInt)
    ensures
        big_value(r) == pow(big_value(*base), exponent as nat),
{
    base.pow(exponent)
}

/// Relies on `num_traits::Zero::is_zero` for `BigInt`.
#[verifier::external_body]
pub(crate) fn big_is_zero(a: &BigInt) -> (r: bool)
    ensures
        r == (big_value(*a) == 0),
{
    num_traits::Zero::is_zero(a)
}

/// Relies on `num_traits::Signed::is_negative` for `BigInt`.
#[verifier::external_body]
pub(crate) fn big_is_negative(a: &BigInt) -> (r: bool)
    ensures
        r == (big_value(*a) < 0),
{
    num_traits::Signed::is_negative(a)
}

/// Relies on `Display for BigInt`: a non-negative value prints as its
/// decimal digits, without sign or leading zeros.
#[verifier::external_body]
pub(crate) fn big_to_decimal(a: &BigInt) -> (r: String)
    requires
        big_value(*a) >= 0,
    ensures
        r@ == decimal_text(big_value(*a) as nat),
{
    a.to_string()
}

} // verus!
