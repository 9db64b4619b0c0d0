//! Instants, counted in whole seconds since 1970-01-01 00:00:00 UTC, and the
//! calendar's say on which of them it can represent.

use vstd::prelude::*;

verus! {

/// The first instant the calendar represents: the start of the year -262143.
pub const MIN_TIMESTAMP: i64 = -8_334_601_228_800;

/// The last instant the calendar represents: the last second of the year 262142.
pub const MAX_TIMESTAMP: i64 = 8_210_266_876_799;

/// Whether the calendar represents the instant `secs`.
pub open spec fn representable(secs: i64) -> bool {
    MIN_TIMESTAMP <= secs <= MAX_TIMESTAMP
}

/// The instant kept for a stored timestamp: the timestamp itself where the
/// calendar represents it, the epoch where it does not.
pub open spec fn stored_instant(secs: i64) -> i64 {
    if representable(secs) {
        secs
    } else {
        0
    }
}

/// `chrono::DateTime::from_timestamp(secs, 0)`, read back with `timestamp()`.
///
/// Trusted: chrono accepts exactly the instants of its calendar's years
/// -262143 to 262142 and hands an accepted instant back unchanged. The two
/// bounds are those of chrono 0.4.45, the version this crate is locked to.
#[verifier::external_body]
pub(crate) fn checked_timestamp(secs: i64) -> (r: Option<i64>)
    ensures
        r == (if representable(secs) {
            Some(secs)
        } else {
            None
        }),
{
    chrono::DateTime::from_timestamp(secs, 0).map(|instant| instant.timestamp())
}

/// `chrono::Utc::now()`, as whole seconds.
///
/// Trusted: whatever the clock shows, chrono hands back an instant of its
/// calendar. Nothing is claimed of which one. The system clock is taken not
/// to stand before 1970.
#[verifier::external_body]
pub(crate) fn unix_now() -> (r: i64)
    ensures
        representable(r),
{
    chrono::Utc::now().timestamp()
}

/// The instant kept for a timestamp read from the store.
pub fn normalize_timestamp(secs: i64) -> (r: i64)
    ensures
        r == stored_instant(secs),
{
    match checked_timestamp(secs) {
        Some(instant) => instant,
        None => 0,
    }
}

/// How a bucket's creation is shown: month, day and year.
pub const DATE_FORMAT: &'static str = "%b %d, %Y";

/// How a cookie's creation is shown: the date, and the time on a twelve-hour
/// clock.
pub const DATE_TIME_FORMAT: &'static str = "%b %d, %Y at %I:%M %p";

/// Whether `offset` is a distance from UTC, in seconds east, that a time zone
/// can have: less than a day either way.
pub open spec fn valid_offset(offset: i32) -> bool {
    -86_400 < offset < 86_400
}

/// Whether `pattern` is one of the two that the jar shows instants in.
pub open spec fn known_pattern(pattern: Seq<char>) -> bool {
    pattern == DATE_FORMAT@ || pattern == DATE_TIME_FORMAT@
}

/// The text that chrono writes for the instant `secs`, seen `offset` seconds
/// east of UTC, in the form that `pattern` asks for.
pub uninterp spec fn formatted_instant(secs: i64, offset: i32, pattern: Seq<char>) -> Seq<char>;

/// `chrono::DateTime::format` on an instant in a `chrono::FixedOffset`.
///
/// Trusted: for an instant of the calendar, an offset of less than a day and
/// one of the jar's two patterns, chrono writes a text, and the text depends
/// on these three alone. What the text is, is chrono's to say.
#[verifier::external_body]
pub(crate) fn format_instant(secs: i64, offset: i32, pattern: &str) -> (r: String)
    requires
        representable(secs),
        valid_offset(offset),
        known_pattern(pattern@),
    ensures
        r@ == formatted_instant(secs, offset, pattern@),
{
    let zone = chrono::FixedOffset::east_opt(offset).unwrap();
    let instant = chrono::DateTime::from_timestamp(secs, 0).unwrap();
    instant.with_timezone(&zone).format(pattern).to_string()
}

/// The offset of `chrono::Local`, the machine's time zone, at an instant.
///
/// Trusted: whatever the machine's time zone is, its offset at an instant of
/// the calendar is less than a day. Nothing is claimed of which one it is.
/// The machine's time zone data is taken to be well-formed.
#[verifier::external_body]
pub(crate) fn local_offset_at(secs: i64) -> (r: i32)
    requires
        representable(secs),
    ensures
        valid_offset(r),
{
    let instant = chrono::DateTime::from_timestamp(secs, 0).unwrap();
    chrono::TimeZone::offset_from_utc_datetime(&chrono::Local, &instant.naive_utc())
        .local_minus_utc()
}

/// The text for a stored timestamp, seen `offset` seconds east of UTC, or
/// nothing where no time zone has that offset.
pub(crate) fn format_timestamp_in(secs: i64, offset: i32, pattern: &'static str) -> (r: Option<
    String,
>)
    requires
        known_pattern(pattern@),
    ensures
        match r {
            Some(text) => valid_offset(offset) && text@ == formatted_instant(
                stored_instant(secs),
                offset,
                pattern@,
            ),
            None => !valid_offset(offset),
        },
{
    if -86_400 < offset && offset < 86_400 {
        Some(format_instant(normalize_timestamp(secs), offset, pattern))
    } else {
        None
    }
}

/// The text for a stored timestamp in the machine's time zone.
pub(crate) fn format_timestamp_locally(secs: i64, pattern: &'static str) -> (r: String)
    requires
        known_pattern(pattern@),
    ensures
        exists|offset: i32|
            valid_offset(offset) && r@ == #[trigger] formatted_instant(
                stored_instant(secs),
                offset,
                pattern@,
            ),
{
    let instant: i64 = normalize_timestamp(secs);
    let offset: i32 = local_offset_at(instant);
    format_instant(instant, offset, pattern)
}

} // verus!
