use nautilus_common::datetime::unix_nanos_to_iso8601;

#[test]
fn test_epoch_renders_as_zero_timestamp() {
    assert_eq!(
        unix_nanos_to_iso8601(0).as_str(),
        "1970-01-01T00:00:00.000000000Z"
    );
}

#[test]
fn test_max_value_does_not_panic() {
    assert_eq!(
        unix_nanos_to_iso8601(u64::MAX).as_str(),
        "2554-07-21T23:34:33.709551615Z"
    );
}

#[test]
fn test_round_second_value() {
    assert_eq!(
        unix_nanos_to_iso8601(1_650_000_000_000_000_000).as_str(),
        "2022-04-15T05:20:00.000000000Z"
    );
}

#[test]
fn test_leap_day_with_nanoseconds() {
    assert_eq!(
        unix_nanos_to_iso8601(1_582_979_696_789_000_001).as_str(),
        "2020-02-29T12:34:56.789000001Z"
    );
}

#[test]
fn test_last_nanosecond_of_a_year() {
    assert_eq!(
        unix_nanos_to_iso8601(946_684_799_999_999_999).as_str(),
        "1999-12-31T23:59:59.999999999Z"
    );
}

#[test]
fn test_one_nanosecond_after_epoch() {
    assert_eq!(
        unix_nanos_to_iso8601(1).as_str(),
        "1970-01-01T00:00:00.000000001Z"
    );
}
