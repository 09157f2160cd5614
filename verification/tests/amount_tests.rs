use newm_admin::amount::{format_amount, usd_to_amount};

#[test]
fn test_usd_to_amount() {
    assert_eq!(usd_to_amount("10.50").unwrap(), 10_500_000);
    assert_eq!(usd_to_amount("100").unwrap(), 100_000_000);
    assert_eq!(usd_to_amount("0.000001").unwrap(), 1);
    assert_eq!(usd_to_amount("1.234567").unwrap(), 1_234_567);
}

#[test]
fn test_usd_to_amount_too_many_decimals() {
    assert!(usd_to_amount("10.1234567").is_err());
    assert!(usd_to_amount("1.0000001").is_err());
}

#[test]
fn test_usd_to_amount_negative() {
    assert!(usd_to_amount("-10").is_err());
}

#[test]
fn test_usd_to_amount_invalid() {
    assert!(usd_to_amount("abc").is_err());
}

#[test]
fn test_usd_to_amount_trims_whitespace() {
    assert_eq!(usd_to_amount("  10.50  ").unwrap(), 10_500_000);
    assert_eq!(usd_to_amount("\t3\n").unwrap(), 3_000_000);
}

#[test]
fn test_usd_to_amount_bare_fraction_and_trailing_dot() {
    assert_eq!(usd_to_amount(".5").unwrap(), 500_000);
    assert_eq!(usd_to_amount("5.").unwrap(), 5_000_000);
    assert_eq!(usd_to_amount("0").unwrap(), 0);
}

#[test]
fn test_usd_to_amount_explicit_plus_sign() {
    assert_eq!(usd_to_amount("+2.25").unwrap(), 2_250_000);
}

#[test]
fn test_usd_to_amount_negative_zero_is_zero() {
    assert_eq!(usd_to_amount("-0").unwrap(), 0);
    assert_eq!(usd_to_amount("-0.000000").unwrap(), 0);
}

#[test]
fn test_usd_to_amount_error_messages() {
    assert_eq!(
        usd_to_amount("10.1234567").unwrap_err(),
        "Maximum 6 decimal places allowed (got 7)"
    );
    assert_eq!(usd_to_amount("-10").unwrap_err(), "Amount cannot be negative");
    assert_eq!(usd_to_amount("abc").unwrap_err(), "Invalid number format");
    assert_eq!(usd_to_amount("").unwrap_err(), "Invalid number format");
    assert_eq!(usd_to_amount(".").unwrap_err(), "Invalid number format");
    assert_eq!(usd_to_amount("1.2.3").unwrap_err(), "Invalid number format");
}

#[test]
fn test_usd_to_amount_decimal_check_precedes_number_check() {
    // The decimal-place count is checked on the raw text, before the shape.
    assert_eq!(
        usd_to_amount("abc.12345678").unwrap_err(),
        "Maximum 6 decimal places allowed (got 8)"
    );
}

#[test]
fn test_usd_to_amount_range() {
    // The largest representable amount, exactly.
    assert_eq!(
        usd_to_amount("9223372036854.775807").unwrap(),
        i64::MAX
    );
    assert_eq!(
        usd_to_amount("9223372036854.775808").unwrap_err(),
        "Amount exceeds the maximum supported value"
    );
    assert_eq!(
        usd_to_amount("99999999999999999999999").unwrap_err(),
        "Amount exceeds the maximum supported value"
    );
}

#[test]
fn test_format_amount_basic() {
    assert_eq!(format_amount(1_000_000), "1.000000");
    assert_eq!(format_amount(1_234_567_890), "1,234.567890");
    assert_eq!(format_amount(0), "0.000000");
    assert_eq!(format_amount(1), "0.000001");
}

#[test]
fn test_format_amount_negative_and_grouping() {
    assert_eq!(format_amount(-1_500_000), "-1.500000");
    assert_eq!(format_amount(1_234_567_890_123_456), "1,234,567,890.123456");
}
