use sheesh::time::{expiration_from, get_expiration, UtcDateTime, MAX_TIMESTAMP, MIN_TIMESTAMP};
use sheesh::{AuthTokenError, AuthTokenErrorKind};

fn at(secs: i64, nanos: u32) -> UtcDateTime {
    UtcDateTime::from_timestamp(secs, nanos).unwrap()
}

#[test]
fn range_matches_chrono() {
    assert_eq!(chrono::DateTime::<chrono::Utc>::MAX_UTC.timestamp(), MAX_TIMESTAMP);
    assert_eq!(chrono::DateTime::<chrono::Utc>::MIN_UTC.timestamp(), MIN_TIMESTAMP);
    let max = UtcDateTime::max_utc();
    assert_eq!(max.timestamp(), chrono::DateTime::<chrono::Utc>::MAX_UTC.timestamp());
    assert_eq!(max.timestamp_subsec_nanos(), chrono::DateTime::<chrono::Utc>::MAX_UTC.timestamp_subsec_nanos());
}

#[test]
fn from_timestamp_accepts_what_chrono_accepts() {
    for (secs, nanos) in [
        (0i64, 0u32),
        (1704153599, 1_500_000_000),
        (1704153598, 1_500_000_000),
        (1704153599, 2_000_000_000),
        (MAX_TIMESTAMP, 999_999_999),
        (MAX_TIMESTAMP + 1, 0),
        (MIN_TIMESTAMP, 0),
        (MIN_TIMESTAMP - 1, 0),
        (-1, 999_999_999),
    ] {
        let ours = UtcDateTime::from_timestamp(secs, nanos).is_some();
        let theirs = chrono::DateTime::from_timestamp(secs, nanos).is_some();
        assert_eq!(ours, theirs, "at {} {}", secs, nanos);
    }
    assert!(UtcDateTime::from_timestamp(1704153599, 1_500_000_000).is_some());
    assert!(UtcDateTime::from_timestamp(1704153598, 1_500_000_000).is_none());
}

#[test]
fn ordering_by_seconds_then_nanoseconds() {
    assert!(at(10, 0).is_after(&at(9, 999_999_999)));
    assert!(at(10, 5).is_after(&at(10, 4)));
    assert!(!at(10, 4).is_after(&at(10, 4)));
    assert!(!at(9, 999_999_999).is_after(&at(10, 0)));
}

#[test]
fn expiration_within_the_day() {
    // 2024-01-01 12:00:00 UTC, thirty minutes on.
    let e = expiration_from(&at(1704110400, 0), 30).unwrap();
    assert_eq!(e.timestamp(), 1704112200);
    assert_eq!(e.timestamp_subsec_nanos(), 0);
    let e = expiration_from(&at(1704110400, 123), -60).unwrap();
    assert_eq!(e.timestamp(), 1704106800);
    assert_eq!(e.timestamp_subsec_nanos(), 123);
}

#[test]
fn expiration_with_zero_ttl_is_now() {
    let now = at(1704110400, 42);
    assert_eq!(expiration_from(&now, 0).unwrap(), now);
    let leap = at(1704153599, 1_500_000_000);
    assert_eq!(expiration_from(&leap, 0).unwrap(), leap);
}

#[test]
fn expiration_crossing_midnight_moves_the_date_by_the_seconds_crossed() {
    // 2024-01-01 23:50:00 UTC, thirty minutes on: the time of day becomes 00:20:00 and the
    // date moves on by 86400 days, the number of seconds in the day crossed.
    let e = expiration_from(&at(1704153000, 0), 30).unwrap();
    assert_eq!(e.timestamp(), 9169028400);
    // The same through chrono's own calls, as the date arithmetic is written there.
    let now = chrono::DateTime::from_timestamp(1704153000, 0).unwrap();
    let (t, rem) = now.time().overflowing_add_signed(chrono::TimeDelta::minutes(30));
    let day = now.checked_add_days(chrono::Days::new(rem as u64)).unwrap();
    let expected = day.with_time(t).unwrap();
    assert_eq!(e.timestamp(), expected.timestamp());
}

#[test]
fn expiration_crossing_midnight_backwards_fails() {
    // 2024-01-01 00:10:00 UTC, thirty minutes back.
    let err = expiration_from(&at(1704067800, 0), -30).unwrap_err();
    assert_eq!(err, AuthTokenError::new(AuthTokenErrorKind::DateTime));
}

#[test]
fn expiration_from_a_leap_second() {
    let e = expiration_from(&at(1704153599, 1_500_000_000), 1).unwrap();
    assert_eq!(e.timestamp(), 9169027259);
    assert_eq!(e.timestamp_subsec_nanos(), 500_000_000);
}

#[test]
fn expiration_past_the_latest_date_fails() {
    let err = expiration_from(&at(MAX_TIMESTAMP - 60, 0), 30).unwrap_err();
    assert_eq!(err.kind, AuthTokenErrorKind::DateTime);
}

#[test]
fn get_expiration_is_counted_from_the_clock() {
    let before = chrono::Utc::now().timestamp();
    let e = get_expiration(0).unwrap();
    let after = chrono::Utc::now().timestamp();
    assert!(before <= e.timestamp() && e.timestamp() <= after);
}

#[test]
fn error_messages() {
    assert_eq!(AuthTokenErrorKind::Expired.to_string(), "Expired");
    assert_eq!(AuthTokenErrorKind::Invalid.to_string(), "Invalid");
    assert_eq!(AuthTokenErrorKind::NotAuthorized.to_string(), "Not Authorized");
    assert_eq!(AuthTokenErrorKind::DateTime.to_string(), "Error in token DateTime expiration check");
    assert_eq!(AuthTokenErrorKind::Create.to_string(), "Could not generate token.");
    assert_eq!(AuthTokenErrorKind::InvalidFormat.to_string(), "Token stored in invalid format.");
    assert_eq!(AuthTokenError::new(AuthTokenErrorKind::Expired).to_string(), "AuthTokenError: Expired");
}
