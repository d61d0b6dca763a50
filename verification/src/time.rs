//! Instants on the UTC time line, held as nanoseconds since the Unix epoch.

use vstd::prelude::*;

verus! {

/// An instant on the UTC time line: nanoseconds since 1970-01-01T00:00:00Z.
pub type DateTimeUtc = i128;

/// Nanoseconds in one second.
pub const NANOS_PER_SECOND: i128 = 1_000_000_000;

/// The earliest instant the calendar supports (`DateTime::<Utc>::MIN_UTC`).
pub const MIN_UTC: i128 = -8_334_601_228_800_000_000_000;

/// The latest instant the calendar supports (`DateTime::<Utc>::MAX_UTC`).
pub const MAX_UTC: i128 = 8_210_266_876_799_999_999_999;

/// Whole seconds since the epoch, rounded toward negative infinity.
pub open spec fn spec_unix_seconds(t: int) -> int {
    t / (NANOS_PER_SECOND as int)
}

/// The number of whole seconds since the epoch (floor division), as the
/// calendar's `timestamp()` reports it.
pub fn unix_seconds(t: DateTimeUtc) -> (s: i128)
    ensures
        s == spec_unix_seconds(t as int),
{
    if t >= 0 {
        t / NANOS_PER_SECOND
    } else {
        let q = (t + 1) / NANOS_PER_SECOND;
        let r = (t + 1) % NANOS_PER_SECOND;
        assert(q * NANOS_PER_SECOND + r == t + 1);
        q - 1
    }
}

} // verus!

verus! {

/// Reads the system clock through `chrono::Utc::now`, split into whole seconds
/// since the epoch (`DateTime::timestamp`) and the nanoseconds past that second
/// (`DateTime::timestamp_subsec_nanos`).  The clock's value is not specified.
/// `Utc::now` builds its date-time with `DateTime::from_timestamp` from the
/// seconds and the sub-second nanoseconds of a `std::time::Duration` (below
/// one second) and unwraps it, so the instant is one the calendar holds
/// (between `MIN_UTC` and `MAX_UTC`) and its nanosecond part is below one
/// second.
#[verifier::external_body]
fn clock_now() -> (r: (i64, u32))
    ensures
        r.1 < NANOS_PER_SECOND,
        MIN_UTC <= r.0 * NANOS_PER_SECOND + r.1 <= MAX_UTC,
{
    let now = chrono::Utc::now();
    (now.timestamp(), now.timestamp_subsec_nanos())
}

/// The current instant, read from the system clock; it lies within the
/// calendar.
pub fn utc_now() -> (t: DateTimeUtc)
    ensures
        MIN_UTC <= t <= MAX_UTC,
        (i64::MIN as int) * NANOS_PER_SECOND <= t < (i64::MAX as int) * NANOS_PER_SECOND
            + 2_000_000_000,
{
    let (secs, nanos) = clock_now();
    let t = (secs as i128) * NANOS_PER_SECOND + (nanos as i128);
    assert(t == (secs as int) * NANOS_PER_SECOND + (nanos as int));
    t
}

} // verus!

verus! {

/// The calendar text of an instant given as whole seconds and the nanoseconds
/// past them, as chrono displays a UTC date-time.
pub uninterp spec fn calendar_text(secs: i64, nanos: u32) -> Seq<char>;

/// Renders an instant through `chrono::DateTime::<Utc>::from_timestamp` and its
/// `Display` (`YYYY-MM-DD HH:MM:SS[.fraction] UTC`).  With a nanosecond part
/// below one second, chrono gives a date-time exactly when the instant lies
/// between `DateTime::<Utc>::MIN_UTC` and `MAX_UTC`, and `None` otherwise.
/// The text itself is named by `calendar_text`.
#[verifier::external_body]
fn calendar_display(secs: i64, nanos: u32) -> (r: Option<String>)
    ensures
        r matches Some(s) ==> s@ == calendar_text(secs, nanos),
        nanos < NANOS_PER_SECOND ==> (r is Some <==> MIN_UTC <= secs * NANOS_PER_SECOND + nanos
            <= MAX_UTC),
{
    chrono::DateTime::<chrono::Utc>::from_timestamp(secs, nanos).map(|d| d.to_string())
}

/// Whole seconds and the remaining nanoseconds (0 to 999_999_999) of an instant.
pub open spec fn split_instant(t: int) -> (int, int) {
    (t / (NANOS_PER_SECOND as int), t % (NANOS_PER_SECOND as int))
}

/// The text of an instant: its calendar notation within the calendar's range,
/// otherwise its decimal count of nanoseconds since the epoch.
pub open spec fn instant_text(t: int) -> Seq<char> {
    if MIN_UTC <= t <= MAX_UTC {
        calendar_text(split_instant(t).0 as i64, split_instant(t).1 as u32)
    } else {
        crate::text::int_text(t)
    }
}

/// The calendar notation of `t`; an instant beyond the calendar is written as
/// its decimal count of nanoseconds since the epoch.
pub fn format_instant(t: DateTimeUtc) -> (s: String)
    ensures
        s@ == instant_text(t as int),
{
    let secs = unix_seconds(t);
    let rem = t % NANOS_PER_SECOND;
    let nanos = if rem < 0 {
        rem + NANOS_PER_SECOND
    } else {
        rem
    };
    assert(nanos == split_instant(t as int).1);
    assert(secs * NANOS_PER_SECOND + nanos == t);
    if MIN_UTC <= t && t <= MAX_UTC {
        match calendar_display(secs as i64, nanos as u32) {
            Some(text) => text,
            None => crate::text::int_to_string(t),
        }
    } else {
        crate::text::int_to_string(t)
    }
}

/// The RFC 3339 text of an instant given as whole seconds and the nanoseconds
/// past them, as chrono writes a UTC date-time.
pub uninterp spec fn rfc3339_text(secs: i64, nanos: u32) -> Seq<char>;

/// The current time in RFC 3339 notation: the RFC 3339 text of the clock's
/// instant, which lies within the calendar; which instant is not specified.
pub(crate) fn now_rfc3339() -> (r: String)
    ensures
        exists|t: int| MIN_UTC <= t <= MAX_UTC && r@ == #[trigger] rfc3339_of(t),
{
    let t = utc_now();
    let r = format_rfc3339(t);
    assert(r@ == rfc3339_of(t as int));
    r
}

/// Writes an instant through `chrono::DateTime::<Utc>::from_timestamp` and
/// `DateTime::to_rfc3339`.  With a nanosecond part below one second, chrono
/// gives a date-time exactly when the instant lies between
/// `DateTime::<Utc>::MIN_UTC` and `MAX_UTC`.  The text is named by
/// `rfc3339_text`.
#[verifier::external_body]
fn rfc3339_display(secs: i64, nanos: u32) -> (r: Option<String>)
    ensures
        r matches Some(s) ==> s@ == rfc3339_text(secs, nanos),
        nanos < NANOS_PER_SECOND ==> (r is Some <==> MIN_UTC <= secs * NANOS_PER_SECOND + nanos
            <= MAX_UTC),
{
    chrono::DateTime::<chrono::Utc>::from_timestamp(secs, nanos).map(|d| d.to_rfc3339())
}

/// The RFC 3339 text of an instant within the calendar, otherwise its decimal
/// count of nanoseconds since the epoch.
pub open spec fn rfc3339_of(t: int) -> Seq<char> {
    if MIN_UTC <= t <= MAX_UTC {
        rfc3339_text(split_instant(t).0 as i64, split_instant(t).1 as u32)
    } else {
        crate::text::int_text(t)
    }
}

/// The RFC 3339 notation of `t`; an instant beyond the calendar is written as
/// its decimal count of nanoseconds since the epoch.
pub fn format_rfc3339(t: DateTimeUtc) -> (s: String)
    ensures
        s@ == rfc3339_of(t as int),
{
    let secs = unix_seconds(t);
    let rem = t % NANOS_PER_SECOND;
    let nanos = if rem < 0 {
        rem + NANOS_PER_SECOND
    } else {
        rem
    };
    assert(nanos == split_instant(t as int).1);
    assert(secs * NANOS_PER_SECOND + nanos == t);
    if MIN_UTC <= t && t <= MAX_UTC {
        match rfc3339_display(secs as i64, nanos as u32) {
            Some(text) => text,
            None => crate::text::int_to_string(t),
        }
    } else {
        crate::text::int_to_string(t)
    }
}

/// What `chrono::DateTime::parse_from_rfc3339` makes of a text: the instant
/// it denotes, as whole seconds since the epoch and the nanoseconds past them
/// (`timestamp` and `timestamp_subsec_nanos` of the instant in UTC), or the
/// debug text and the display text of the error it gives.
pub uninterp spec fn rfc3339_read(s: Seq<char>) -> Result<(i64, u32), (Seq<char>, Seq<char>)>;

/// Reads an RFC 3339 text through `chrono::DateTime::parse_from_rfc3339`,
/// taken to UTC; a refusal gives the error's debug and display texts.  The
/// outcome is named by `rfc3339_read`; chrono documents the nanosecond part as
/// below 2_000_000_000 (it may pass 999_999_999 only inside a leap second).
#[verifier::external_body]
fn rfc3339_instant(s: &str) -> (r: Result<(i64, u32), (String, String)>)
    ensures
        r matches Ok(p) ==> (rfc3339_read(s@) matches Ok(x) && x == p && p.1 < 2_000_000_000),
        r matches Err(m) ==> (rfc3339_read(s@) matches Err(x) && x.0 == m.0@ && x.1 == m.1@),
{
    match chrono::DateTime::parse_from_rfc3339(s) {
        Ok(d) => {
            let u = d.with_timezone(&chrono::Utc);
            Ok((u.timestamp(), u.timestamp_subsec_nanos()))
        },
        Err(e) => Err((format!("{:?}", e), e.to_string())),
    }
}

/// The instant of whole seconds and nanoseconds past them.
pub open spec fn instant_of(p: (i64, u32)) -> int {
    p.0 * NANOS_PER_SECOND + p.1
}

/// The instant an RFC 3339 text denotes, or the debug and display texts of
/// chrono's refusal.
pub fn parse_rfc3339(s: &str) -> (r: Result<DateTimeUtc, (String, String)>)
    ensures
        match rfc3339_read(s@) {
            Ok(p) => r matches Ok(t) && t == instant_of(p),
            Err(m) => r matches Err(x) && x.0@ == m.0 && x.1@ == m.1,
        },
{
    match rfc3339_instant(s) {
        Ok((secs, nanos)) => Ok((secs as i128) * NANOS_PER_SECOND + (nanos as i128)),
        Err(m) => Err(m),
    }
}

} // verus!
