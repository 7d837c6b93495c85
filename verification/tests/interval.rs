use annict_notify::interval::{
    interval_from_groups, interval_seconds, parse_interval, parse_number, IntervalError,
    INTERVAL_PATTERN,
};

#[test]
fn seconds_minutes_hours() {
    assert_eq!(parse_interval("30s"), Ok(30));
    assert_eq!(parse_interval("30 sec"), Ok(30));
    assert_eq!(parse_interval("5m"), Ok(300));
    assert_eq!(parse_interval("10 min"), Ok(600));
    assert_eq!(parse_interval("2h"), Ok(7200));
    assert_eq!(parse_interval("1 hour"), Ok(3600));
}

#[test]
fn space_around_the_parts_is_ignored() {
    assert_eq!(parse_interval("  15   min  "), Ok(900));
    assert_eq!(parse_interval("\t7\ts\n"), Ok(7));
}

#[test]
fn units_in_any_case() {
    assert_eq!(parse_interval("1 HOUR"), Ok(3600));
    assert_eq!(parse_interval("3 Min"), Ok(180));
    assert_eq!(parse_interval("9 S"), Ok(9));
}

#[test]
fn zero_and_leading_zeros() {
    assert_eq!(parse_interval("0 s"), Ok(0));
    assert_eq!(parse_interval("007 m"), Ok(420));
}

#[test]
fn malformed_intervals() {
    assert_eq!(parse_interval(""), Err(IntervalError::Format));
    assert_eq!(parse_interval("min"), Err(IntervalError::Format));
    assert_eq!(parse_interval("10"), Err(IntervalError::Format));
    assert_eq!(parse_interval("10 days"), Err(IntervalError::Format));
    assert_eq!(parse_interval("-5 s"), Err(IntervalError::Format));
    assert_eq!(parse_interval("1.5 h"), Err(IntervalError::Format));
    assert_eq!(parse_interval("10 mins"), Err(IntervalError::Format));
}

#[test]
fn digits_of_other_scripts_are_no_number() {
    // The pattern takes any decimal digit; the number is read in 0 to 9.
    assert_eq!(parse_interval("٣ s"), Err(IntervalError::Number));
}

#[test]
fn numbers_beyond_64_bits() {
    assert_eq!(parse_interval("18446744073709551615 s"), Ok(u64::MAX));
    assert_eq!(parse_interval("18446744073709551616 s"), Err(IntervalError::Number));
    assert_eq!(parse_interval("18446744073709551615 m"), Err(IntervalError::TooLong));
    assert_eq!(parse_interval("307445734561825860 min"), Ok(18446744073709551600));
    assert_eq!(parse_interval("307445734561825861 min"), Err(IntervalError::TooLong));
    assert_eq!(parse_interval("5124095576030431 h"), Ok(18446744073709551600));
    assert_eq!(parse_interval("5124095576030432 h"), Err(IntervalError::TooLong));
}

#[test]
fn parts_of_an_interval() {
    assert_eq!(interval_seconds("12", "sec"), Ok(12));
    assert_eq!(interval_seconds("12", "hOuR"), Ok(43200));
    assert_eq!(interval_seconds("", "s"), Err(IntervalError::Number));
    assert_eq!(interval_seconds("+5", "s"), Err(IntervalError::Number));
    assert_eq!(interval_seconds("5x", "s"), Err(IntervalError::Number));
    assert_eq!(interval_seconds("5", "d"), Err(IntervalError::Unit));
    assert_eq!(interval_seconds("5", ""), Err(IntervalError::Unit));
    assert_eq!(interval_seconds("5", "ſ"), Err(IntervalError::Unit));
    assert_eq!(interval_seconds("x", "d"), Err(IntervalError::Number));
}

#[test]
fn groups_of_a_match() {
    assert_eq!(interval_from_groups(None), Err(IntervalError::Format));
    assert_eq!(
        interval_from_groups(Some((Some("4".to_string()), None))),
        Err(IntervalError::Format)
    );
    assert_eq!(
        interval_from_groups(Some((None, Some("s".to_string())))),
        Err(IntervalError::Format)
    );
    assert_eq!(
        interval_from_groups(Some((Some("4".to_string()), Some("m".to_string())))),
        Ok(240)
    );
}

#[test]
fn plain_numbers() {
    assert_eq!(parse_number("0"), Some(0));
    assert_eq!(parse_number("1234567890"), Some(1234567890));
    assert_eq!(parse_number("18446744073709551615"), Some(u64::MAX));
    assert_eq!(parse_number("18446744073709551616"), None);
    assert_eq!(parse_number("99999999999999999999999"), None);
    assert_eq!(parse_number(""), None);
    assert_eq!(parse_number("12a"), None);
    assert_eq!(parse_number(" 1"), None);
}

#[test]
fn the_pattern() {
    assert_eq!(INTERVAL_PATTERN, r"^\s*(\d+)\s*((?i)s|sec|m|min|h|hour)\s*$");
}
