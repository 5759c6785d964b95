//! Points in time, and the clock and calendar computations the platform
//! takes from `chrono`.

use vstd::prelude::*;
use chrono::Datelike;

verus! {

/// A point in time as a Unix timestamp: whole seconds since
/// 1970-01-01T00:00:00Z and the nanoseconds past that second.
#[derive(Clone, Copy, Debug, PartialEq, Eq)]
pub struct Timestamp {
    pub secs: i64,
    pub nanos: u32,
}

/// First second of the year 0 (0000-01-01T00:00:00Z).
pub const RFC2822_MIN_SECS: i64 = -62167219200;

/// Last second of the year 9999 (9999-12-31T23:59:59Z).
pub const RFC2822_MAX_SECS: i64 = 253402300799;

/// Whether `secs` falls in the years 0 through 9999, the only years RFC
/// 2822 can write.
pub open spec fn rfc2822_representable(secs: i64) -> bool {
    RFC2822_MIN_SECS <= secs <= RFC2822_MAX_SECS
}

/// Whether `t` is a time `chrono` can hold: a sub-second part below two
/// seconds, and one of a second or more (a leap second) only in the last
/// second of a minute.
pub open spec fn valid_timestamp(t: Timestamp) -> bool {
    &&& t.nanos < 2_000_000_000
    &&& t.nanos >= 1_000_000_000 ==> t.secs % 60 == 59
}

/// What `chrono::DateTime::<Utc>::to_rfc2822` writes for the UTC time
/// `secs` seconds and `nanos` nanoseconds after the Unix epoch, such as
/// `Tue, 1 Jul 2003 10:52:37 +0000`.
pub uninterp spec fn rfc2822_text(secs: i64, nanos: u32) -> Seq<char>;

/// Calls `chrono::Utc::now` and reads its Unix timestamp. The time is the
/// machine's, so nothing is stated of it but its range: `Utc::now` builds
/// the time from the system clock's time since the Unix epoch (it panics
/// on a clock before the epoch), as whole seconds and sub-second
/// nanoseconds below 1,000,000,000.
#[verifier::external_body]
pub(crate) fn now() -> (t: Timestamp)
    ensures
        t.secs >= 0,
        t.nanos < 1_000_000_000,
{
    let d = chrono::Utc::now();
    Timestamp { secs: d.timestamp(), nanos: d.timestamp_subsec_nanos() }
}

/// Calls `chrono::Utc::now().year()`: the current year, which depends on
/// the machine's clock. `Utc::now` panics where the clock reads before the
/// Unix epoch, so every year it returns is 1970 or later; nothing more is
/// stated of it.
#[verifier::external_body]
pub(crate) fn current_year() -> (year: i32)
    ensures
        1970 <= year,
{
    chrono::Utc::now().year()
}

/// Calls `chrono::DateTime::<Utc>::to_rfc2822` on the time `t`, built by
/// `DateTime::from_timestamp(t.secs, t.nanos)`. The text is named
/// `rfc2822_text`. `from_timestamp` gives `Some` for every valid time in
/// the years 0..=9999, and `to_rfc2822` panics outside those years, which
/// `requires` leaves out.
#[verifier::external_body]
pub(crate) fn rfc2822(t: Timestamp) -> (text: String)
    requires
        rfc2822_representable(t.secs),
        valid_timestamp(t),
    ensures
        text@ == rfc2822_text(t.secs, t.nanos),
{
    chrono::DateTime::from_timestamp(t.secs, t.nanos).unwrap().to_rfc2822()
}

} // verus!
