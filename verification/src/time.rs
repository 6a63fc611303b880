use vstd::prelude::*;

use chrono::{DateTime, Days, LocalResult, NaiveTime, TimeDelta, Timelike, Utc};

use crate::errors::{AuthTokenError, AuthTokenErrorKind};

verus! {

/// Seconds in a day without leap seconds.
pub const SECS_PER_DAY: i64 = 86400;

/// The UNIX timestamp of the earliest representable instant (year -262143, January 1st as chrono counts it).
pub const MIN_TIMESTAMP: i64 = -8334601228800;

/// The UNIX timestamp of the last second of the latest representable day (year 262142, December 31st).
pub const MAX_TIMESTAMP: i64 = 8210266876799;

/// The largest magnitude, in minutes, of a time to live that can be turned into a duration.
pub const MAX_TTL_MINUTES: i64 = 153722867280912;

/// An instant as plain numbers: whole seconds since the UNIX epoch and the nanoseconds
/// into that second (from one billion on, the second is a leap second).
pub struct Instant {
    pub secs: int,
    pub nanos: int,
}

/// The instant `secs` seconds and `nanos` nanoseconds after the UNIX epoch.
pub open spec fn instant(secs: int, nanos: int) -> Instant {
    Instant { secs, nanos }
}

/// The instants that a UTC date and time can hold.
pub open spec fn valid_instant(i: Instant) -> bool {
    &&& MIN_TIMESTAMP <= i.secs <= MAX_TIMESTAMP
    &&& 0 <= i.nanos
    &&& (i.nanos < 1_000_000_000 || (i.nanos < 2_000_000_000 && i.secs % 60 == 59))
}

/// The latest representable instant.
pub open spec fn max_instant() -> Instant {
    Instant { secs: MAX_TIMESTAMP as int, nanos: 999_999_999 }
}

/// `a` comes strictly after `b`.
pub open spec fn instant_after(a: Instant, b: Instant) -> bool {
    a.secs > b.secs || (a.secs == b.secs && a.nanos > b.nanos)
}

/// A point in time in UTC, with nanosecond precision.
#[derive(Clone, Copy, Debug, PartialEq, Eq, Structural)]
pub struct UtcDateTime {
    secs: i64,
    nanos: u32,
}

impl View for UtcDateTime {
    type V = Instant;

    closed spec fn view(&self) -> Instant {
        Instant { secs: self.secs as int, nanos: self.nanos as int }
    }
}

impl UtcDateTime {
    #[verifier::type_invariant]
    spec fn inv(self) -> bool {
        valid_instant(Instant { secs: self.secs as int, nanos: self.nanos as int })
    }

    /// The date and time `secs` seconds and `nanos` nanoseconds after the UNIX epoch,
    /// or `None` where no UTC date and time is that instant.
    pub fn from_timestamp(secs: i64, nanos: u32) -> (r: Option<Self>)
        ensures
            r is Some <==> valid_instant(instant(secs as int, nanos as int)),
            r matches Some(d) ==> d@ == instant(secs as int, nanos as int),
    {
        if secs < MIN_TIMESTAMP || secs > MAX_TIMESTAMP {
            return None;
        }
        let shifted: u64 = (secs - MIN_TIMESTAMP) as u64;
        assert(shifted as int % 60 == secs as int % 60) by {
            assert(MIN_TIMESTAMP as int == -138910020480 * 60);
        }
        if nanos < 1_000_000_000 || (nanos < 2_000_000_000 && shifted % 60 == 59) {
            Some(UtcDateTime { secs, nanos })
        } else {
            None
        }
    }

    /// The latest representable date and time.
    pub fn max_utc() -> (r: Self)
        ensures
            r@ == max_instant(),
    {
        UtcDateTime { secs: MAX_TIMESTAMP, nanos: 999_999_999 }
    }

    /// Whole seconds since the UNIX epoch.
    pub fn timestamp(&self) -> (r: i64)
        ensures
            r == self@.secs,
            valid_instant(self@),
    {
        proof {
            use_type_invariant(self);
        }
        self.secs
    }

    /// Nanoseconds into the current second.
    pub fn timestamp_subsec_nanos(&self) -> (r: u32)
        ensures
            r == self@.nanos,
            valid_instant(self@),
    {
        proof {
            use_type_invariant(self);
        }
        self.nanos
    }

    /// Whether `self` comes strictly after `other`.
    pub fn is_after(&self, other: &Self) -> (r: bool)
        ensures
            r == instant_after(self@, other@),
            valid_instant(self@),
            valid_instant(other@),
    {
        proof {
            use_type_invariant(self);
            use_type_invariant(other);
        }
        self.secs > other.secs || (self.secs == other.secs && self.nanos > other.nanos)
    }
}

/// The time of day reached by adding `delta` seconds to the time of day `sod` (seconds
/// since midnight) with `frac` nanoseconds, and the whole days crossed, counted in seconds:
/// `(new seconds since midnight, new nanoseconds, seconds in the days crossed)`.
/// A leap second is left first, unless nothing is added.
pub open spec fn day_time_add(sod: int, frac: int, delta: int) -> (int, int, int) {
    if frac >= 1_000_000_000 && delta == 0 {
        (sod, frac, 0)
    } else {
        let s1 = if frac >= 1_000_000_000 && delta < 0 { sod + 1 } else { sod };
        let f1 = if frac >= 1_000_000_000 { frac - 1_000_000_000 } else { frac };
        let t = s1 + delta;
        (t % 86400, f1, t - t % 86400)
    }
}

/// The date `days` days after the date of `d`, at the same time of day, where that is
/// representable.
pub open spec fn add_days_spec(d: Instant, days: int) -> Option<Instant> {
    if days == 0 {
        Some(d)
    } else {
        let r = instant(d.secs + days * 86400, d.nanos);
        if days <= i32::MAX && !instant_after(r, max_instant()) {
            Some(r)
        } else {
            None
        }
    }
}

/// The instant on the date of `d` at `sod` seconds and `frac` nanoseconds after midnight.
pub open spec fn with_time_spec(d: Instant, sod: int, frac: int) -> Instant {
    instant((d.secs / 86400) * 86400 + sod, frac)
}

/// The result of `x as u64` for a 64-bit signed `x`.
pub open spec fn as_u64_bits(x: int) -> int {
    if x >= 0 { x } else { x + 0x1_0000_0000_0000_0000 }
}

/// The expiration computed from `now` and a time to live of `ttl` minutes: the time of
/// day moves on by `ttl` minutes, and the date moves on by as many days as the seconds
/// in the whole days that the time of day crossed; `None` where that date is not
/// representable.
pub open spec fn expiration_spec(now: Instant, ttl: int) -> Option<Instant> {
    let moved = day_time_add(now.secs % 86400, now.nanos, ttl * 60);
    match add_days_spec(now, as_u64_bits(moved.2)) {
        Some(d) => Some(with_time_spec(d, moved.0, moved.1)),
        None => None,
    }
}

/// The time to live is one that a duration in minutes can hold.
pub open spec fn ttl_in_range(ttl: int) -> bool {
    -MAX_TTL_MINUTES <= ttl <= MAX_TTL_MINUTES
}

/// An instant that the system clock gave: only `utc_now` establishes it, so an instant
/// made up by the library's code is no clock reading. A clock reading is a valid instant
/// with fewer than a billion nanoseconds (`lemma_clock_reading_is_valid`); which instant it
/// is depends on the clock.
#[verifier::opaque]
pub closed spec fn clock_reading(i: Instant) -> bool {
    valid_instant(i) && i.nanos < 1_000_000_000
}

/// A clock reading is a valid instant with fewer than a billion nanoseconds.
pub proof fn lemma_clock_reading_is_valid(i: Instant)
    requires
        clock_reading(i),
    ensures
        valid_instant(i),
        i.nanos < 1_000_000_000,
{
    reveal(clock_reading);
}

/// The current date and time, read from the system clock by `chrono::Utc::now`.
/// Claimed: the result is a clock reading, a valid instant with fewer than a billion
/// nanoseconds. Its value depends on the clock and is otherwise left unsaid.
#[verifier::external_body]
pub(crate) fn utc_now() -> (r: UtcDateTime)
    ensures
        valid_instant(r@),
        r@.nanos < 1_000_000_000,
        clock_reading(r@),
{
    let now = Utc::now();
    UtcDateTime { secs: now.timestamp(), nanos: now.timestamp_subsec_nanos() }
}

/// `chrono::NaiveTime::overflowing_add_signed` on the time of day of `d`, with a
/// duration of `minutes` minutes made by `chrono::TimeDelta::minutes`.
/// Claimed: the new time of day and the seconds in the days crossed are those of
/// `day_time_add`, which restates the source of `overflowing_add_signed` for a
/// duration of whole seconds.
#[verifier::external_body]
fn time_of_day_add_minutes(d: &UtcDateTime, minutes: i64) -> (r: (u32, u32, i64))
    requires
        d.inv(),
        ttl_in_range(minutes as int),
    ensures
        (r.0 as int, r.1 as int, r.2 as int) == day_time_add(d@.secs % 86400, d@.nanos, minutes * 60),
{
    let (t, rem) = DateTime::from_timestamp(d.secs, d.nanos).unwrap().time().overflowing_add_signed(TimeDelta::minutes(minutes));
    (t.num_seconds_from_midnight(), t.nanosecond(), rem)
}

/// `chrono::DateTime::<Utc>::checked_add_days` on `d` with `chrono::Days::new(days)`.
/// Claimed: the result is that of `add_days_spec`, which restates its source (`None`
/// past the latest representable date and time or past `i32::MAX` days).
#[verifier::external_body]
fn checked_add_days(d: &UtcDateTime, days: u64) -> (r: Option<UtcDateTime>)
    requires
        d.inv(),
    ensures
        r matches Some(x) ==> add_days_spec(d@, days as int) == Some(x@),
        r is None ==> add_days_spec(d@, days as int) is None,
{
    match DateTime::from_timestamp(d.secs, d.nanos).unwrap().checked_add_days(Days::new(days)) {
        Some(x) => Some(UtcDateTime { secs: x.timestamp(), nanos: x.timestamp_subsec_nanos() }),
        None => None,
    }
}

/// `chrono::DateTime::<Utc>::with_time` on `d`, with the time of day made by
/// `chrono::NaiveTime::from_num_seconds_from_midnight_opt(sod, frac)`.
/// Claimed: in UTC the result is always the single instant of `with_time_spec`, as its
/// source shows; the other outcomes are mapped to `None` and `Some` of their first instant.
#[verifier::external_body]
fn with_time_of_day(d: &UtcDateTime, sod: u32, frac: u32) -> (r: Option<UtcDateTime>)
    requires
        d.inv(),
        sod < 86400,
        frac < 1_000_000_000 || (frac < 2_000_000_000 && sod % 60 == 59),
    ensures
        r is Some,
        r matches Some(x) ==> x@ == with_time_spec(d@, sod as int, frac as int),
{
    let t = NaiveTime::from_num_seconds_from_midnight_opt(sod, frac).unwrap();
    match DateTime::from_timestamp(d.secs, d.nanos).unwrap().with_time(t) {
        LocalResult::Single(x) => Some(UtcDateTime { secs: x.timestamp(), nanos: x.timestamp_subsec_nanos() }),
        LocalResult::Ambiguous(x, _) => Some(UtcDateTime { secs: x.timestamp(), nanos: x.timestamp_subsec_nanos() }),
        LocalResult::None => None,
    }
}

/// The expiration of something with a time to live of `ttl` minutes, counted from `now`.
/// Fails with `DateTime` exactly where `expiration_spec` finds no representable date.
pub fn expiration_from(now: &UtcDateTime, ttl: i64) -> (r: Result<UtcDateTime, AuthTokenError>)
    requires
        ttl_in_range(ttl as int),
    ensures
        r matches Ok(d) ==> expiration_spec(now@, ttl as int) == Some(d@),
        r matches Err(e) ==> expiration_spec(now@, ttl as int) is None && e.kind == AuthTokenErrorKind::DateTime,
{
    proof {
        use_type_invariant(now);
    }
    let (sod, frac, rem) = time_of_day_add_minutes(now, ttl);
    let days: u64 = #[verifier::truncate] (rem as u64);
    assert(rem >= 0 ==> days == rem) by (bit_vector)
        requires
            days == rem as u64,
    ;
    assert(rem < 0 ==> days == rem + 0x1_0000_0000_0000_0000) by (bit_vector)
        requires
            days == rem as u64,
    ;
    match checked_add_days(now, days) {
        Some(day) => {
            proof {
                use_type_invariant(&day);
            }
            assert(sod % 60 == 59 || frac < 1_000_000_000);
            match with_time_of_day(&day, sod, frac) {
                Some(expires) => Ok(expires),
                None => Err(AuthTokenError::new(AuthTokenErrorKind::DateTime)),
            }
        },
        None => Err(AuthTokenError::new(AuthTokenErrorKind::DateTime)),
    }
}

/// The expiration of something with a time to live of `ttl` minutes, counted from the
/// current date and time.
pub fn get_expiration(ttl: i64) -> (r: Result<UtcDateTime, AuthTokenError>)
    requires
        ttl_in_range(ttl as int),
    ensures
        exists|now: Instant| valid_instant(now) && clock_reading(now) && #[trigger] expiration_outcome(now, ttl as int, r),
{
    let now = utc_now();
    proof {
        use_type_invariant(&now);
    }
    let r = expiration_from(&now, ttl);
    assert(expiration_outcome(now@, ttl as int, r));
    r
}

/// Counting `ttl` minutes from `now` gives `r`: the expiration where `expiration_spec`
/// finds one, else `DateTime`.
pub open spec fn expiration_outcome(now: Instant, ttl: int, r: Result<UtcDateTime, AuthTokenError>) -> bool {
    match r {
        Ok(d) => expiration_spec(now, ttl) == Some(d@),
        Err(e) => expiration_spec(now, ttl) is None && e.kind == AuthTokenErrorKind::DateTime,
    }
}

/// A time to live of zero expires at the very instant it is counted from.
pub proof fn lemma_zero_ttl_expires_now(now: Instant)
    requires
        valid_instant(now),
    ensures
        expiration_spec(now, 0) == Some(now),
{
    let sod = now.secs % 86400;
    assert(now.secs == (now.secs / 86400) * 86400 + sod);
    if now.nanos >= 1_000_000_000 {
    } else {
        assert(sod % 86400 == sod);
    }
}

/// A time to live that stays within the day of `now` expires exactly `ttl` minutes after it.
pub proof fn lemma_expiration_within_day(now: Instant, ttl: int)
    requires
        valid_instant(now),
        now.nanos < 1_000_000_000,
        0 <= now.secs % 86400 + ttl * 60 < 86400,
    ensures
        expiration_spec(now, ttl) == Some(instant(now.secs + ttl * 60, now.nanos)),
{
    let sod = now.secs % 86400;
    let t = sod + ttl * 60;
    assert(now.secs == (now.secs / 86400) * 86400 + sod);
    assert(t % 86400 == t);
    assert(day_time_add(sod, now.nanos, ttl * 60) == (t, now.nanos, 0int));
}

/// A time to live that runs past the end of the day of `now` (by less than a day) moves
/// the date on by 86400 days, one for each second of the day crossed, and not by one:
/// the seconds counted by the time of day are taken for days.
pub proof fn lemma_expiration_crossing_midnight(now: Instant, ttl: int)
    requires
        valid_instant(now),
        now.nanos < 1_000_000_000,
        86400 <= now.secs % 86400 + ttl * 60 < 2 * 86400,
        now.secs + 86400 * 86400 <= MAX_TIMESTAMP,
    ensures
        expiration_spec(now, ttl) == Some(instant(now.secs + ttl * 60 - 86400 + 86400 * 86400, now.nanos)),
{
    let sod = now.secs % 86400;
    let t = sod + ttl * 60;
    assert(now.secs == (now.secs / 86400) * 86400 + sod);
    assert(t % 86400 == t - 86400);
    assert(day_time_add(sod, now.nanos, ttl * 60) == (t - 86400, now.nanos, 86400int));
    let d = instant(now.secs + 86400 * 86400, now.nanos);
    assert(add_days_spec(now, 86400) == Some(d));
    assert((d.secs / 86400) * 86400 == (now.secs / 86400) * 86400 + 86400 * 86400);
}

/// Strictly after is irreflexive, asymmetric and transitive, and any two distinct
/// instants are ordered one way or the other.
pub proof fn lemma_after_is_strict_total_order(a: Instant, b: Instant, c: Instant)
    ensures
        !instant_after(a, a),
        instant_after(a, b) ==> !instant_after(b, a),
        instant_after(a, b) && instant_after(b, c) ==> instant_after(a, c),
        a != b ==> instant_after(a, b) || instant_after(b, a),
{
}

/// No valid instant comes after the latest representable one, but for the leap
/// second that may end the latest day.
pub proof fn lemma_nothing_after_max(i: Instant)
    requires
        valid_instant(i),
        i.secs < MAX_TIMESTAMP || i.nanos < 1_000_000_000,
    ensures
        !instant_after(i, max_instant()),
{
}

} // verus!
