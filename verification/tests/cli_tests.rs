use bitclk::cli::{
    parse_duration, parse_timer_duration, ClockArgs,
    StartupRadix, MAX_DISPLAY_SECS,
};
use std::time::Duration;

#[test]
fn default_clock_args_start_in_binary_mode() {
    let args = ClockArgs::default();

    assert_eq!(args.startup_radix(), StartupRadix::Binary);
}

#[test]
fn parses_timer_duration_argument() {
    let duration = parse_timer_duration("05:00").expect("duration should parse");

    assert_eq!(Duration::from_secs(duration.into_inner()), Duration::from_secs(300));
}

#[test]
fn parses_timer_duration_with_units() {
    let duration = parse_timer_duration("1h2m3s").expect("duration should parse");

    assert_eq!(Duration::from_secs(duration.into_inner()), Duration::from_secs(3_723));
}

#[test]
fn rejects_timer_duration_above_display_limit() {
    let result = parse_timer_duration("64:00:00");

    assert!(result.is_err());
}

#[test]
fn startup_radix_prefers_octal_then_hex() {
    let both = ClockArgs { binary: false, octal: true, hex: true };
    assert_eq!(both.startup_radix(), StartupRadix::Octal);
    let hex = ClockArgs { binary: true, octal: false, hex: true };
    assert_eq!(hex.startup_radix(), StartupRadix::Hexadecimal);
}

#[test]
fn plain_seconds_and_hms_forms_parse() {
    assert_eq!(parse_duration("90"), Ok(90));
    assert_eq!(parse_duration("  01:02:03 "), Ok(3_723));
    assert_eq!(parse_duration("+7"), Ok(7));
    assert_eq!(parse_duration("63:59:59"), Ok(MAX_DISPLAY_SECS));
    assert_eq!(parse_duration("0"), Ok(0));
}

#[test]
fn unit_suffixes_are_case_insensitive_and_saturating() {
    assert_eq!(parse_duration("2M5S"), Ok(125));
    assert_eq!(parse_duration("10s1h"), Ok(3_610));
    assert_eq!(
        parse_duration("99999999999999999999h").unwrap_err(),
        "invalid duration value: 99999999999999999999"
    );
    assert_eq!(
        parse_duration("9999999999999999h").unwrap_err(),
        "timer duration cannot exceed 63:59:59"
    );
}

#[test]
fn each_duration_error_has_its_message() {
    assert_eq!(parse_duration("   ").unwrap_err(), "timer duration cannot be empty");
    assert_eq!(parse_duration("abc").unwrap_err(), "missing value before duration suffix: a");
    assert_eq!(parse_duration("5x").unwrap_err(), "invalid duration suffix: x");
    assert_eq!(parse_duration("5m6M").unwrap_err(), "duration suffix can only be used once: M");
    assert_eq!(parse_duration("5m6").unwrap_err(), "duration with unit suffixes must end in h, m, or s");
    assert_eq!(parse_duration("12-3").unwrap_err(), "invalid duration value: 12-3");
    assert_eq!(parse_duration("1:2:3:4").unwrap_err(), "duration must use MM:SS or HH:MM:SS");
    assert_eq!(parse_duration("1:60").unwrap_err(), "seconds must be below 60 in MM:SS format");
    assert_eq!(
        parse_duration("1:60:00").unwrap_err(),
        "minutes and seconds must be below 60 in HH:MM:SS format"
    );
    assert_eq!(parse_duration("x:10").unwrap_err(), "invalid minutes value: x");
    assert_eq!(parse_duration("10:").unwrap_err(), "invalid seconds value: ");
    assert_eq!(parse_duration("a:1:2").unwrap_err(), "invalid hours value: a");
    assert_eq!(parse_duration("1:b:2").unwrap_err(), "invalid minutes value: b");
}

#[test]
fn colon_arithmetic_overflow_is_refused_by_the_limit() {
    let limit = "timer duration cannot exceed 63:59:59";
    assert_eq!(parse_duration("307445734561825861:00").unwrap_err(), limit);
    assert_eq!(parse_duration("18446744073709551615:00").unwrap_err(), limit);
    assert_eq!(parse_duration("18446744073709551615:00:00").unwrap_err(), limit);
    assert_eq!(parse_duration("5124095576030431:00:00").unwrap_err(), limit);
    assert_eq!(
        parse_duration("18446744073709551615:99").unwrap_err(),
        "seconds must be below 60 in MM:SS format"
    );
    assert!(parse_timer_duration("307445734561825861:00").is_err());
    assert_eq!(parse_duration("63:59:59"), Ok(230399));
}
