//! Exact derivation of both exchange rates of a pool from its fixed-point
//! square-root price.
//!
//! The sample `S` encodes `sqrt(price of token0 in token1) * 2^96`. With
//! `a = S^2 * 10^d0` and `b = 2^192 * 10^d1`, one token0 is worth `a / b`
//! token1 and one token1 is worth `b / a` token0. Both are scaled by `10^18`
//! and truncated: truncation is the only loss of precision.
use vstd::prelude::*;
use num_bigint::BigInt;
use vstd::arithmetic::power::{pow, lemma_pow_positive, lemma_pow_adds};
use vstd::arithmetic::div_mod::{lemma_fundamental_div_mod, lemma_mod_pos_bound};
use vstd::string::StrSliceExecFns;
use crate::bignum::{
    big_value, is_digit, is_numeral, numeral_value, big_parse_decimal, big_from_u32,
    big_mul, big_div, big_pow, big_is_zero,
};

verus! {

/// Number of decimal digits by which both quotes are scaled.
pub const QUOTE_SCALE_DIGITS: u32 = 18;

/// Why a price could not be derived or rendered.
#[derive(Debug, Clone, Copy, PartialEq, Eq, Structural)]
pub enum FormatError {
    /// A scaled amount could not be rendered (it was negative).
    FormatPriceFailed,
    /// The square-root price text is not a decimal numeral.
    SqrtPriceParseFailed,
    /// The square-root price is zero, so the reciprocal price is undefined.
    ZeroSqrtPrice,
}

impl FormatError {
    /// A human-readable description of the error.
    pub fn message(&self) -> String {
        match self {
            FormatError::FormatPriceFailed => String::from_str("Failed to format price"),
            FormatError::SqrtPriceParseFailed => String::from_str("Failed to parse sqrt price"),
            FormatError::ZeroSqrtPrice => String::from_str("Sqrt price is zero"),
        }
    }
}

/// `S^2 * 10^d0`: the numerator of the price of one token0 in token1.
pub open spec fn price_num(s: int, d0: nat) -> int {
    s * s * pow(10, d0)
}

/// `2^192 * 10^d1`: the denominator of the price of one token0 in token1.
pub open spec fn price_den(d1: nat) -> int {
    pow(2, 192) * pow(10, d1)
}

/// Units of token1 for one token0, scaled by `10^18`, truncated.
pub open spec fn quote0(s: int, d0: nat, d1: nat) -> int {
    price_num(s, d0) * pow(10, 18) / price_den(d1)
}

/// Units of token0 for one token1, scaled by `10^18`, truncated.
pub open spec fn quote1(s: int, d0: nat, d1: nat) -> int {
    price_den(d1) * pow(10, 18) / price_num(s, d0)
}

/// What `calculate_prices` returns for the sample text `s`.
pub open spec fn calculate_outcome(s: Seq<char>, d0: nat, d1: nat) -> Result<(int, int), FormatError> {
    if !is_numeral(s) {
        Err(FormatError::SqrtPriceParseFailed)
    } else if numeral_value(s) == 0 {
        Err(FormatError::ZeroSqrtPrice)
    } else {
        Ok((quote0(numeral_value(s), d0, d1), quote1(numeral_value(s), d0, d1)))
    }
}

/// The values of a pair of quotes, or the error unchanged.
pub open spec fn quote_values(r: Result<(BigInt, BigInt), FormatError>) -> Result<(int, int), FormatError> {
    match r {
        Ok((q0, q1)) => Ok((big_value(q0), big_value(q1))),
        Err(e) => Err(e),
    }
}

/// A numeral never denotes a negative value.
pub proof fn lemma_numeral_value_nonneg(s: Seq<char>)
    requires
        forall|i: int| 0 <= i < s.len() ==> is_digit(#[trigger] s[i]),
    ensures
        numeral_value(s) >= 0,
    decreases s.len(),
{
    if s.len() > 0 {
        assert forall|i: int| 0 <= i < s.drop_last().len() implies is_digit(
            #[trigger] s.drop_last()[i],
        ) by {
            assert(s.drop_last()[i] == s[i]);
        }
        lemma_numeral_value_nonneg(s.drop_last());
        assert(is_digit(s[s.len() - 1]));
    }
}

/// Whether `text` is a non-empty run of ASCII decimal digits.
pub fn is_decimal_numeral(text: &str) -> (r: bool)
    ensures
        r == is_numeral(text@),
{
    let n = text.unicode_len();
    if n == 0 {
        return false;
    }
    let mut i: usize = 0;
    while i < n
        invariant
            n == text@.len(),
            i <= n,
            forall|j: int| 0 <= j < i ==> is_digit(#[trigger] text@[j]),
        decreases n - i,
    {
        let c = text.get_char(i);
        if !('0' <= c && c <= '9') {
            return false;
        }
        i = i + 1;
    }
    true
}

/// Derives `(q0, q1)`: units of token1 for one token0 and units of token0 for
/// one token1, both scaled by `10^18` and truncated, from the decimal text of
/// the square-root price and the two tokens' decimals. The symbols only name
/// the pair.
pub fn calculate_prices(
    sqrt_price_x96_str: String,
    decimal_token0: u32,
    decimal_token1: u32,
    token0_symbol: &String,
    token1_symbol: &String,
) -> (r: Result<(BigInt, BigInt), FormatError>)
    requires
        decimal_token0 <= 255,
        decimal_token1 <= 255,
    ensures
        quote_values(r) == calculate_outcome(
            sqrt_price_x96_str@,
            decimal_token0 as nat,
            decimal_token1 as nat,
        ),
{
    let text = sqrt_price_x96_str.as_str();
    if !is_decimal_numeral(text) {
        return Err(FormatError::SqrtPriceParseFailed);
    }
    let sample = match big_parse_decimal(text) {
        Some(v) => v,
        None => {
            return Err(FormatError::SqrtPriceParseFailed);
        },
    };
    if big_is_zero(&sample) {
        return Err(FormatError::ZeroSqrtPrice);
    }
    let ghost s = numeral_value(text@);
    proof {
        lemma_numeral_value_nonneg(text@);
    }
    let ten = big_from_u32(10);
    let two = big_from_u32(2);
    let square = big_mul(&sample, &sample);
    let num = big_mul(&square, &big_pow(&ten, decimal_token0));
    let den = big_mul(&big_pow(&two, 192), &big_pow(&ten, decimal_token1));
    let scale = big_pow(&ten, QUOTE_SCALE_DIGITS);
    proof {
        lemma_pow_positive(10, decimal_token0 as nat);
        lemma_pow_positive(10, decimal_token1 as nat);
        lemma_pow_positive(2, 192);
        lemma_pow_positive(10, 18);
        assert(s * s > 0) by (nonlinear_arith)
            requires
                s > 0,
        ;
        let p0 = pow(10, decimal_token0 as nat);
        let p1 = pow(10, decimal_token1 as nat);
        let k = pow(10, 18);
        let t = pow(2, 192);
        assert(s * s * p0 > 0 && t * p1 > 0) by (nonlinear_arith)
            requires
                s * s > 0,
                p0 > 0,
                p1 > 0,
                t > 0,
        ;
        assert(s * s * p0 * k >= 0 && t * p1 * k >= 0) by (nonlinear_arith)
            requires
                s * s * p0 > 0,
                t * p1 > 0,
                k > 0,
        ;
    }
    let q0 = big_div(&big_mul(&num, &scale), &den);
    let q1 = big_div(&big_mul(&den, &scale), &num);
    Ok((q0, q1))
}

/// For every non-zero sample, both quotes are non-negative, and they are
/// reciprocal up to truncation: `q0 * q1 <= 10^36 < (q0 + 1) * (q1 + 1)`.
pub proof fn lemma_quotes_reciprocal(s: int, d0: nat, d1: nat)
    requires
        s > 0,
    ensures
        quote0(s, d0, d1) >= 0,
        quote1(s, d0, d1) >= 0,
        quote0(s, d0, d1) * quote1(s, d0, d1) <= pow(10, 36),
        pow(10, 36) < (quote0(s, d0, d1) + 1) * (quote1(s, d0, d1) + 1),
{
    let a = price_num(s, d0);
    let b = price_den(d1);
    let k = pow(10, 18);
    lemma_pow_positive(10, d0);
    lemma_pow_positive(10, d1);
    lemma_pow_positive(2, 192);
    lemma_pow_positive(10, 18);
    lemma_pow_adds(10, 18, 18);
    assert(s * s > 0) by (nonlinear_arith)
        requires
            s > 0,
    ;
    assert(a > 0 && b > 0) by (nonlinear_arith)
        requires
            s * s > 0,
            pow(10, d0) > 0,
            pow(10, d1) > 0,
            pow(2, 192) > 0,
            a == s * s * pow(10, d0),
            b == pow(2, 192) * pow(10, d1),
    ;
    assert(a * k > 0 && b * k > 0) by (nonlinear_arith)
        requires
            a > 0,
            b > 0,
            k > 0,
    ;
    let q0 = a * k / b;
    let q1 = b * k / a;
    lemma_fundamental_div_mod(a * k, b);
    lemma_fundamental_div_mod(b * k, a);
    lemma_mod_pos_bound(a * k, b);
    lemma_mod_pos_bound(b * k, a);
    assert(q0 >= 0 && q1 >= 0) by (nonlinear_arith)
        requires
            a * k == b * q0 + (a * k) % b,
            b * k == a * q1 + (b * k) % a,
            0 <= (a * k) % b < b,
            0 <= (b * k) % a < a,
            a > 0,
            b > 0,
            a * k > 0,
            b * k > 0,
    ;
    assert(q0 * q1 <= k * k) by (nonlinear_arith)
        requires
            b * q0 <= a * k,
            a * q1 <= b * k,
            q0 >= 0,
            q1 >= 0,
            a > 0,
            b > 0,
    ;
    assert(b * (q0 + 1) == b * q0 + b && a * (q1 + 1) == a * q1 + a) by (nonlinear_arith);
    assert(k * k < (q0 + 1) * (q1 + 1)) by (nonlinear_arith)
        requires
            a * k < b * (q0 + 1),
            b * k < a * (q1 + 1),
            k > 0,
            a > 0,
            b > 0,
    ;
}

/// Two calls on the same sample text and decimals derive the same quotes.
pub proof fn lemma_calculate_deterministic(s1: Seq<char>, s2: Seq<char>, d0: nat, d1: nat)
    requires
        s1 == s2,
    ensures
        calculate_outcome(s1, d0, d1) == calculate_outcome(s2, d0, d1),
{
}

} // verus!
