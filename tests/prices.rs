use num_bigint::BigInt;
use pool_price_monitor::calc::{calculate_prices, is_decimal_numeral, FormatError};
use pool_price_monitor::format::format_amount;

fn big(text: &str) -> BigInt {
    text.parse::<BigInt>().unwrap()
}

fn quotes(sample: &str, d0: u32, d1: u32) -> Result<(BigInt, BigInt), FormatError> {
    calculate_prices(
        sample.to_string(),
        d0,
        d1,
        &"T0".to_string(),
        &"T1".to_string(),
    )
}

#[test]
fn unit_sample_gives_parity() {
    let r = quotes("79228162514264337593543950336", 18, 18).unwrap();
    assert_eq!(r.0, big("1000000000000000000"));
    assert_eq!(r.1, big("1000000000000000000"));
}

#[test]
fn decimals_shift_the_quotes() {
    let r = quotes("79228162514264337593543950336", 6, 18).unwrap();
    assert_eq!(r.0, big("1000000"));
    assert_eq!(r.1, big("1000000000000000000000000000000"));
}

#[test]
fn token1_decimals_below_token0() {
    let r = quotes("79228162514264337593543950336", 18, 6).unwrap();
    assert_eq!(r.0, big("1000000000000000000000000000000"));
    assert_eq!(r.1, big("1000000"));
}

#[test]
fn truncation_of_both_quotes() {
    let r = quotes("118842243771396506390315925504", 0, 0).unwrap();
    assert_eq!(r.0, big("2250000000000000000"));
    assert_eq!(r.1, big("444444444444444444"));
}

#[test]
fn realistic_stable_pair_sample() {
    let r = quotes("1350174849792634181862360983626536", 6, 18).unwrap();
    assert_eq!(r.0, big("290416214657745"));
    assert_eq!(r.1, big("3443333910189890948275"));
}

#[test]
fn quotes_are_reciprocal_up_to_truncation() {
    let samples = ["1350174849792634181862360983626536", "118842243771396506390315925504", "1", "987654321987654321"];
    let decimals = [(0u32, 0u32), (6, 18), (18, 6), (255, 0), (0, 255)];
    let k = big("1000000000000000000000000000000000000");
    for s in samples.iter() {
        for (d0, d1) in decimals.iter() {
            let (q0, q1) = quotes(s, *d0, *d1).unwrap();
            assert!(q0 >= BigInt::from(0u32));
            assert!(q1 >= BigInt::from(0u32));
            assert!(&q0 * &q1 <= k);
            assert!(k < (&q0 + 1u32) * (&q1 + 1u32));
        }
    }
}

#[test]
fn identical_inputs_identical_outputs() {
    let a = quotes("1350174849792634181862360983626536", 6, 18);
    let b = quotes("1350174849792634181862360983626536", 6, 18);
    assert_eq!(a, b);
}

#[test]
fn non_digit_sample_is_a_parse_error() {
    assert_eq!(quotes("12x", 18, 18), Err(FormatError::SqrtPriceParseFailed));
    assert_eq!(quotes("", 6, 18), Err(FormatError::SqrtPriceParseFailed));
    assert_eq!(quotes("-5", 6, 18), Err(FormatError::SqrtPriceParseFailed));
    assert_eq!(quotes("1_000", 6, 18), Err(FormatError::SqrtPriceParseFailed));
}

#[test]
fn zero_sample_is_a_calculation_error() {
    assert_eq!(quotes("0", 18, 18), Err(FormatError::ZeroSqrtPrice));
    assert_eq!(quotes("000", 6, 18), Err(FormatError::ZeroSqrtPrice));
}

#[test]
fn numeral_recognition() {
    assert!(is_decimal_numeral("0123456789"));
    assert!(!is_decimal_numeral(""));
    assert!(!is_decimal_numeral("+1"));
    assert!(!is_decimal_numeral("12 "));
}

#[test]
fn format_one_and_a_half() {
    let v = BigInt::from(1_500_000_000_000_000_000u128);
    assert_eq!(format_amount(&v, 18, "USDC").unwrap(), "1.5 USDC");
}

#[test]
fn format_whole_unit_trims_fraction() {
    let v = BigInt::from(1_000_000_000_000_000_000u128);
    assert_eq!(format_amount(&v, 18, "USDC").unwrap(), "1 USDC");
}

#[test]
fn format_groups_integer_part_only() {
    let v = BigInt::from(1_234_567_000_000_000_000_000u128);
    assert_eq!(format_amount(&v, 18, "USDC").unwrap(), "1,234.567 USDC");
}

#[test]
fn format_small_fraction_keeps_leading_zeros() {
    let v = BigInt::from(290_416_214_657_745u128);
    assert_eq!(format_amount(&v, 18, "WETH").unwrap(), "0.000290416214657745 WETH");
}

#[test]
fn format_zero() {
    let v = BigInt::from(0u32);
    assert_eq!(format_amount(&v, 18, "USDC").unwrap(), "0 USDC");
}

#[test]
fn format_many_groups() {
    let v = big("3443333910189890948275");
    assert_eq!(format_amount(&v, 18, "USDC").unwrap(), "3,443.333910189890948275 USDC");
    let w = big("1234567890");
    assert_eq!(format_amount(&w, 0, "X").unwrap(), "1,234,567,890 X");
    let x = big("123456");
    assert_eq!(format_amount(&x, 0, "X").unwrap(), "123,456 X");
}

#[test]
fn format_negative_fails() {
    let v = BigInt::from(-5i32);
    assert_eq!(format_amount(&v, 18, "USDC"), Err(FormatError::FormatPriceFailed));
}

#[test]
fn error_messages() {
    assert_eq!(FormatError::SqrtPriceParseFailed.message(), "Failed to parse sqrt price");
    assert_eq!(FormatError::FormatPriceFailed.message(), "Failed to format price");
}
