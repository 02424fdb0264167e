use admin_views::moment::{
    accepted_timestamp, candidate_timestamp, datetime_local_to_rfc3339, dt_to_input, render_input,
    timestamp, timestamp_or_epoch, UtcFields,
};

const SECOND: i128 = 1_000_000_000;

#[test]
fn inputs_show_the_minute_in_utc() {
    assert_eq!(dt_to_input(0), "1970-01-01T00:00");
    assert_eq!(dt_to_input(951_782_399 * SECOND + 1), "2000-02-28T23:59");
    assert_eq!(dt_to_input(951_782_400 * SECOND), "2000-02-29T00:00");
    assert_eq!(dt_to_input(-1), "1969-12-31T23:59");
    assert_eq!(dt_to_input(253_402_300_799 * SECOND), "9999-12-31T23:59");
    assert_eq!(dt_to_input(-62_167_219_200 * SECOND), "0000-01-01T00:00");
}

#[test]
fn years_before_zero_keep_their_sign() {
    let f = UtcFields { year: -5, month: 3, day: 4, hour: 5, minute: 6, second: 7, nanosecond: 8 };
    assert_eq!(render_input(f), "-005-03-04T05:06");
    assert_eq!(dt_to_input(-62_167_219_200 * SECOND - 1), "-001-12-31T23:59");
}

#[test]
fn local_values_become_timestamps() {
    let read = |s: &str| datetime_local_to_rfc3339(s);
    assert_eq!(read("2024-02-29T12:30"), Some("2024-02-29T12:30:00Z".to_string()));
    assert_eq!(read(" 2024-02-29T12:30 "), Some("2024-02-29T12:30:00Z".to_string()));
    assert_eq!(read("2024-02-29T12:30:59"), Some("2024-02-29T12:30:59Z".to_string()));
    assert_eq!(read("\t2024-02-29T12:30:59.25 "), Some("2024-02-29T12:30:59.25Z".to_string()));
}

#[test]
fn unreadable_values_become_nothing() {
    for s in ["", "   ", "tomorrow", "2023-02-29T12:30", "2024-13-01T00:00", "2024-01-01T24:00"] {
        assert_eq!(datetime_local_to_rfc3339(s), None);
    }
}

#[test]
fn prefilled_value_posts_its_minute() {
    for nanos in [0, 1_700_000_000 * SECOND + 5, 951_868_799 * SECOND + 999_999_999] {
        let minute = nanos - nanos % (60 * SECOND);
        assert_eq!(
            datetime_local_to_rfc3339(dt_to_input(nanos).as_str()),
            Some(timestamp(minute))
        );
    }
}

#[test]
fn candidates_get_seconds_and_an_offset() {
    assert_eq!(candidate_timestamp(" 10:20 "), Some("10:20:00Z".to_string()));
    assert_eq!(candidate_timestamp("10:20:30"), Some("10:20:30Z".to_string()));
    assert_eq!(candidate_timestamp(" "), None);
    assert_eq!(accepted_timestamp("x".to_string(), true), Some("x".to_string()));
    assert_eq!(accepted_timestamp("x".to_string(), false), None);
}

#[test]
fn timestamps_are_exact_to_the_nanosecond() {
    assert_eq!(timestamp(0), "1970-01-01T00:00:00Z");
    assert_eq!(timestamp(1_700_000_000 * SECOND), "2023-11-14T22:13:20Z");
    assert_eq!(timestamp(1_700_000_000 * SECOND + 120_000_000), "2023-11-14T22:13:20.12Z");
    assert_eq!(timestamp(1_700_000_000 * SECOND + 1), "2023-11-14T22:13:20.000000001Z");
}

#[test]
fn moments_without_a_timestamp_fall_back_to_the_epoch() {
    assert_eq!(timestamp(-62_167_219_200 * SECOND - 1), "1970-01-01T00:00:00Z");
    assert_eq!(timestamp(i128::MAX), "1970-01-01T00:00:00Z");
    assert_eq!(timestamp_or_epoch(None), "1970-01-01T00:00:00Z");
    assert_eq!(timestamp_or_epoch(Some("x".to_string())), "x");
}
