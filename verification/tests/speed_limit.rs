use crunchy_cli_core::speed::{parse_speed_limit, SpeedLimitError};

#[test]
fn bare_number_is_bytes() {
    assert_eq!(parse_speed_limit("500"), Ok(500));
    assert_eq!(parse_speed_limit("0"), Ok(0));
    assert_eq!(parse_speed_limit("007"), Ok(7));
}

#[test]
fn bytes_kilobytes_and_megabytes() {
    assert_eq!(parse_speed_limit("500B"), Ok(500));
    assert_eq!(parse_speed_limit("500KB"), Ok(512_000));
    assert_eq!(parse_speed_limit("10MB"), Ok(10_485_760));
    assert_eq!(parse_speed_limit("1KB"), Ok(1024));
    assert_eq!(parse_speed_limit("1MB"), Ok(1_048_576));
}

#[test]
fn largest_limits_that_fit() {
    assert_eq!(parse_speed_limit("4294967295"), Ok(u32::MAX));
    assert_eq!(parse_speed_limit("4294967295B"), Ok(u32::MAX));
    assert_eq!(parse_speed_limit("4194303KB"), Ok(4_294_966_272));
    assert_eq!(parse_speed_limit("4095MB"), Ok(4_293_918_720));
}

#[test]
fn limits_that_do_not_fit_are_too_large() {
    assert_eq!(parse_speed_limit("4294967296"), Err(SpeedLimitError::TooLarge));
    assert_eq!(parse_speed_limit("4194304KB"), Err(SpeedLimitError::TooLarge));
    assert_eq!(parse_speed_limit("4096MB"), Err(SpeedLimitError::TooLarge));
    assert_eq!(
        parse_speed_limit("99999999999999999999999999999999MB"),
        Err(SpeedLimitError::TooLarge)
    );
}

#[test]
fn text_without_number_is_malformed() {
    assert_eq!(parse_speed_limit(""), Err(SpeedLimitError::Malformed));
    assert_eq!(parse_speed_limit("KB"), Err(SpeedLimitError::Malformed));
    assert_eq!(parse_speed_limit("-5KB"), Err(SpeedLimitError::Malformed));
    assert_eq!(parse_speed_limit(" 5KB"), Err(SpeedLimitError::Malformed));
}

#[test]
fn unknown_unit_is_malformed() {
    assert_eq!(parse_speed_limit("5GB"), Err(SpeedLimitError::Malformed));
    assert_eq!(parse_speed_limit("5kb"), Err(SpeedLimitError::Malformed));
    assert_eq!(parse_speed_limit("5K"), Err(SpeedLimitError::Malformed));
    assert_eq!(parse_speed_limit("5 KB"), Err(SpeedLimitError::Malformed));
    assert_eq!(parse_speed_limit("5KB "), Err(SpeedLimitError::Malformed));
    assert_eq!(parse_speed_limit("5KB5"), Err(SpeedLimitError::Malformed));
    assert_eq!(parse_speed_limit("5.5MB"), Err(SpeedLimitError::Malformed));
}

#[test]
fn unknown_unit_is_malformed_even_after_a_huge_number() {
    assert_eq!(parse_speed_limit("99999999999999999999GB"), Err(SpeedLimitError::Malformed));
}
