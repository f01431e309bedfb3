//! Rendering of a scaled integer amount as grouped decimal text.
//!
//! A value `V` with `N` fractional digits renders as its integer part with a
//! comma between each group of three digits (counted from the right), then,
//! when the fraction is not zero, a point and the fraction's digits without
//! trailing zeros, then a space and the unit symbol.
use vstd::prelude::*;
use num_bigint::BigInt;
use vstd::arithmetic::power::{pow, lemma_pow_positive};
use vstd::string::{StrSliceExecFns, StringExecFns};
use crate::bignum::{
    big_value, decimal_text, big_from_u32, big_pow, big_div, big_rem, big_is_negative,
    big_to_decimal,
};
use crate::calc::FormatError;

verus! {

/// Relies on `String::push`: the character is appended at the end.
pub assume_specification[ String::push ](s: &mut String, ch: char)
    ensures
        final(s)@ == old(s)@.push(ch),
;

/// The digits `d` with a comma before each group of three, counted from the
/// least significant digit.
pub open spec fn group_thousands(d: Seq<char>) -> Seq<char>
    decreases d.len(),
{
    if d.len() <= 3 {
        d
    } else {
        group_thousands(d.subrange(0, d.len() - 3)) + seq![','] + d.subrange(
            d.len() - 3,
            d.len() as int,
        )
    }
}

/// `d` without its trailing `'0'` characters.
pub open spec fn trim_trailing_zeros(d: Seq<char>) -> Seq<char>
    decreases d.len(),
{
    if d.len() > 0 && d.last() == '0' {
        trim_trailing_zeros(d.drop_last())
    } else {
        d
    }
}

/// `d` left-padded with `'0'` to at least `n` characters.
pub open spec fn pad_left(d: Seq<char>, n: nat) -> Seq<char> {
    if d.len() >= n {
        d
    } else {
        Seq::new((n - d.len()) as nat, |i: int| '0') + d
    }
}

/// The text of `v` read with `n` fractional digits, followed by `symbol`.
pub open spec fn amount_text(v: nat, n: nat, symbol: Seq<char>) -> Seq<char> {
    let whole = group_thousands(decimal_text((v as int / pow(10, n)) as nat));
    let fraction = trim_trailing_zeros(pad_left(decimal_text((v as int % pow(10, n)) as nat), n));
    if fraction.len() == 0 {
        whole + seq![' '] + symbol
    } else {
        whole + seq!['.'] + fraction + seq![' '] + symbol
    }
}

/// Appends the characters of `d` from `from` to `to`.
fn push_range(out: &mut String, d: &String, from: usize, to: usize)
    requires
        from <= to <= d@.len(),
    ensures
        final(out)@ == old(out)@ + d@.subrange(from as int, to as int),
{
    let mut i = from;
    while i < to
        invariant
            from <= i <= to,
            to <= d@.len(),
            out@ == old(out)@ + d@.subrange(from as int, i as int),
        decreases to - i,
    {
        let c = d.as_str().get_char(i);
        out.push(c);
        assert(d@.subrange(from as int, i + 1) =~= d@.subrange(from as int, i as int).push(c));
        i = i + 1;
    }
}

/// Appends the first `end` digits of `d`, grouped by thousands.
fn push_grouped(out: &mut String, d: &String, end: usize)
    requires
        end <= d@.len(),
    ensures
        final(out)@ == old(out)@ + group_thousands(d@.subrange(0, end as int)),
    decreases end,
{
    if end <= 3 {
        push_range(out, d, 0, end);
    } else {
        let ghost prefix = d@.subrange(0, end as int);
        push_grouped(out, d, end - 3);
        out.push(',');
        push_range(out, d, end - 3, end);
        assert(prefix.subrange(0, prefix.len() - 3) =~= d@.subrange(0, end - 3));
        assert(prefix.subrange(prefix.len() - 3, prefix.len() as int) =~= d@.subrange(
            end - 3,
            end as int,
        ));
    }
}

/// The characters of `d`, left-padded with `'0'` to at least `n`.
fn padded_digits(d: &String, n: usize) -> (r: Vec<char>)
    ensures
        r@ == pad_left(d@, n as nat),
{
    let len = d.as_str().unicode_len();
    let mut r: Vec<char> = Vec::new();
    let zeros: usize = if len < n {
        n - len
    } else {
        0
    };
    let mut i: usize = 0;
    while i < zeros
        invariant
            i <= zeros,
            r@ == Seq::new(i as nat, |k: int| '0'),
        decreases zeros - i,
    {
        r.push('0');
        assert(r@ =~= Seq::new((i + 1) as nat, |k: int| '0'));
        i = i + 1;
    }
    let mut j: usize = 0;
    while j < len
        invariant
            j <= len,
            len == d@.len(),
            r@ == Seq::new(zeros as nat, |k: int| '0') + d@.subrange(0, j as int),
        decreases len - j,
    {
        let c = d.as_str().get_char(j);
        r.push(c);
        assert(Seq::new(zeros as nat, |k: int| '0') + d@.subrange(0, j + 1) =~= (Seq::new(
            zeros as nat,
            |k: int| '0',
        ) + d@.subrange(0, j as int)).push(c));
        j = j + 1;
    }
    assert(d@.subrange(0, len as int) =~= d@);
    if len >= n {
        assert(r@ =~= d@);
    }
    r
}

/// The length of `p` once its trailing `'0'` characters are removed.
fn trimmed_len(p: &Vec<char>) -> (end: usize)
    ensures
        end <= p@.len(),
        p@.subrange(0, end as int) == trim_trailing_zeros(p@),
{
    let mut end = p.len();
    assert(p@.subrange(0, end as int) =~= p@);
    while end > 0 && p[end - 1] == '0'
        invariant
            end <= p@.len(),
            trim_trailing_zeros(p@.subrange(0, end as int)) == trim_trailing_zeros(p@),
        decreases end,
    {
        assert(p@.subrange(0, end as int).drop_last() =~= p@.subrange(0, end - 1));
        end = end - 1;
    }
    end
}

/// Renders `value`, read with `decimals` fractional digits, followed by a
/// space and `symbol`: `1234567 * 10^15` with 18 decimals and `"USDC"` gives
/// `"1,234.567 USDC"`. A negative value cannot be rendered.
pub fn format_amount(value: &BigInt, decimals: u32, symbol: &str) -> (r: Result<String, FormatError>)
    requires
        decimals <= 255,
    ensures
        big_value(*value) < 0 ==> r == Err::<String, FormatError>(FormatError::FormatPriceFailed),
        big_value(*value) >= 0 ==> r.is_ok() && r.unwrap()@ == amount_text(
            big_value(*value) as nat,
            decimals as nat,
            symbol@,
        ),
{
    if big_is_negative(value) {
        return Err(FormatError::FormatPriceFailed);
    }
    let ten = big_from_u32(10);
    let unit = big_pow(&ten, decimals);
    proof {
        lemma_pow_positive(10, decimals as nat);
    }
    let whole = big_div(value, &unit);
    let fraction = big_rem(value, &unit);
    proof {
        vstd::arithmetic::div_mod::lemma_mod_pos_bound(big_value(*value), big_value(unit));
        vstd::arithmetic::div_mod::lemma_div_pos_is_pos(big_value(*value), big_value(unit));
    }
    let whole_text = big_to_decimal(&whole);
    let fraction_text = big_to_decimal(&fraction);
    let padded = padded_digits(&fraction_text, decimals as usize);
    let end = trimmed_len(&padded);
    let mut out = String::new();
    push_grouped(&mut out, &whole_text, whole_text.as_str().unicode_len());
    assert(whole_text@.subrange(0, whole_text@.len() as int) =~= whole_text@);
    if end > 0 {
        out.push('.');
        let mut i: usize = 0;
        let ghost head = out@;
        while i < end
            invariant
                i <= end,
                end <= padded@.len(),
                out@ == head + padded@.subrange(0, i as int),
            decreases end - i,
        {
            out.push(padded[i]);
            assert(padded@.subrange(0, i + 1) =~= padded@.subrange(0, i as int).push(padded@[i as int]));
            i = i + 1;
        }
    }
    out.push(' ');
    out.append(symbol);
    Ok(out)
}

} // verus!
