use sweeplab::reply::{
    grid_wavelength, parse_trace, peak_wavelength_micro_nm, power_micro_dbm_or_sentinel,
    select_power_field, trace_count, trim, ProtocolError, POWER_SENTINEL,
};

#[test]
fn trims_surrounding_whitespace() {
    assert_eq!(trim("  -10.5\r\n"), "-10.5");
    assert_eq!(trim("800"), "800");
    assert_eq!(trim(" \t \n"), "");
    assert_eq!(trim("a b"), "a b");
}

#[test]
fn selects_second_power_field() {
    // the four-channel reply records the second port's power
    assert_eq!(select_power_field("-12.3,-10.5,-11.1,-9.9"), Ok(-10_500_000));
}

#[test]
fn power_reply_without_second_field_is_missing() {
    assert_eq!(select_power_field(""), Err(ProtocolError::MissingField));
    assert_eq!(select_power_field("-12.3"), Err(ProtocolError::MissingField));
}

#[test]
fn power_reply_with_bad_second_field_is_malformed() {
    assert_eq!(select_power_field("-12.3,oops,-11.1"), Err(ProtocolError::MalformedField));
    assert_eq!(select_power_field("a,b"), Err(ProtocolError::MalformedField));
}

#[test]
fn reads_peak_scalars_with_sentinels() {
    assert_eq!(peak_wavelength_micro_nm("1.53e-6\n"), 1_530_000_000);
    assert_eq!(peak_wavelength_micro_nm("garbled"), 0);
    assert_eq!(power_micro_dbm_or_sentinel("-12.25\r\n"), -12_250_000);
    assert_eq!(power_micro_dbm_or_sentinel("???"), -100_000_000);
}

#[test]
fn reads_trace_length_with_fallback() {
    assert_eq!(trace_count("800\r\n"), 800);
    assert_eq!(trace_count("1001"), 1001);
    assert_eq!(trace_count("not a number"), 800);
    assert_eq!(trace_count("1"), 800);
}

#[test]
fn grid_spreads_bounds_evenly() {
    // start 1530 nm, stop 1538 nm, five slots
    let start = 1_530_000_000;
    let stop = 1_538_000_000;
    let expect = [
        1_530_000_000i64,
        1_532_000_000,
        1_534_000_000,
        1_536_000_000,
        1_538_000_000,
    ];
    for (j, want) in expect.iter().enumerate() {
        assert_eq!(grid_wavelength(start, stop, 5, j as u64), *want);
    }
}

#[test]
fn trace_keeps_malformed_samples_as_sentinel() {
    // the third sample is malformed: it becomes the power sentinel at
    // its grid wavelength, and the rest of the trace still parses
    let samples = parse_trace("-10.0,-11.5,garbage,-12.25", 5, 1_530_000_000, 1_538_000_000);
    assert_eq!(samples.len(), 4);
    assert_eq!(samples[0].wavelength, 1_530_000_000);
    assert_eq!(samples[0].power, -10_000_000);
    assert_eq!(samples[1].power, -11_500_000);
    assert_eq!(samples[2].wavelength, 1_534_000_000);
    assert_eq!(samples[2].power, POWER_SENTINEL);
    assert_eq!(samples[3].power, -12_250_000);
}

#[test]
fn trace_keeps_only_the_configured_length() {
    let samples = parse_trace("1,2,3,4,5,6,7", 3, 1_530_000_000, 1_538_000_000);
    assert_eq!(samples.len(), 3);
    let short = parse_trace("-1.5", 800, 1_530_000_000, 1_538_000_000);
    assert_eq!(short.len(), 1);
    assert_eq!(short[0].wavelength, 1_530_000_000);
}
