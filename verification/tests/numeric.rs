use sweeplab::num::{parse_scaled, parse_u64_text, render_fixed, render_micro, render_u64};

#[test]
fn renders_whole_micro_values() {
    assert_eq!(render_micro(1_530_000_000, 3), "1530.000");
    assert_eq!(render_micro(1_530_000_000, 2), "1530.00");
    assert_eq!(render_micro(-10_500_000, 6), "-10.500000");
    assert_eq!(render_micro(0, 2), "0.00");
}

#[test]
fn renders_rounding_half_away_from_zero() {
    // 1530.0005 nm to three digits rounds up
    assert_eq!(render_micro(1_530_000_500, 3), "1530.001");
    assert_eq!(render_micro(-10_555_500, 4), "-10.5555");
    assert_eq!(render_micro(-10_555_550, 4), "-10.5556");
}

#[test]
fn renders_fixed_scales() {
    assert_eq!(render_fixed(1234, 2), "12.34");
    assert_eq!(render_fixed(-7, 0), "-7");
    assert_eq!(render_fixed(5, 3), "0.005");
}

#[test]
fn renders_plain_numbers() {
    assert_eq!(render_u64(0), "0");
    assert_eq!(render_u64(21), "21");
    assert_eq!(render_u64(18446744073709551615), "18446744073709551615");
}

#[test]
fn parses_plain_decimals() {
    assert_eq!(parse_scaled("-10.5", 6), Some(-10_500_000));
    assert_eq!(parse_scaled("1530.000", 6), Some(1_530_000_000));
    assert_eq!(parse_scaled("+3.25", 2), Some(325));
    assert_eq!(parse_scaled("0", 6), Some(0));
    assert_eq!(parse_scaled(".5", 1), Some(5));
    assert_eq!(parse_scaled("7.", 0), Some(7));
}

#[test]
fn parses_exponent_forms() {
    // a peak wavelength in meters, read in micro-nm
    assert_eq!(parse_scaled("1.53e-6", 15), Some(1_530_000_000));
    assert_eq!(parse_scaled("1.53E-006", 15), Some(1_530_000_000));
    assert_eq!(parse_scaled("2e3", 0), Some(2000));
    assert_eq!(parse_scaled("25e-1", 0), Some(2));
}

#[test]
fn truncates_toward_zero() {
    assert_eq!(parse_scaled("1.2345", 2), Some(123));
    assert_eq!(parse_scaled("-1.2399", 2), Some(-123));
}

#[test]
fn refuses_malformed_numbers() {
    assert_eq!(parse_scaled("", 6), None);
    assert_eq!(parse_scaled("abc", 6), None);
    assert_eq!(parse_scaled("1.2.3", 6), None);
    assert_eq!(parse_scaled("1e", 6), None);
    assert_eq!(parse_scaled("--5", 6), None);
    assert_eq!(parse_scaled("inf", 6), None);
    assert_eq!(parse_scaled("NaN", 6), None);
}

#[test]
fn refuses_numbers_beyond_i64() {
    assert_eq!(parse_scaled("1e300", 6), None);
    assert_eq!(parse_scaled("9223372036854775807", 0), None); // mantissa above the cap
    assert_eq!(parse_scaled("1e-300", 6), Some(0));
}

#[test]
fn parses_values_at_the_edge_of_i64() {
    assert_eq!(parse_scaled("9e18", 0), Some(9_000_000_000_000_000_000));
    assert_eq!(parse_scaled("-9e18", 0), Some(-9_000_000_000_000_000_000));
    assert_eq!(parse_scaled("1e19", 0), None);
}

#[test]
fn parses_unsigned_counts() {
    assert_eq!(parse_u64_text("800"), Some(800));
    assert_eq!(parse_u64_text("+800"), Some(800));
    assert_eq!(parse_u64_text("0012"), Some(12));
    assert_eq!(parse_u64_text(""), None);
    assert_eq!(parse_u64_text("-5"), None);
    assert_eq!(parse_u64_text("8.0"), None);
}
