//! Instants: the timestamp of the wire format and the UTC date-time that
//! storage works with.

use vstd::prelude::*;

verus! {

/// The first second that a UTC date-time can hold: midnight of January 1
/// of the year -262143.
pub const MIN_UTC_SECONDS: i64 = -8_334_601_228_800;

/// The last second that a UTC date-time can hold: 23:59:59 of December 31
/// of the year 262142.
pub const MAX_UTC_SECONDS: i64 = 8_210_266_876_799;

/// A point in time as requests carry it: whole seconds since the Unix
/// epoch and a nanosecond part. Nothing constrains the two fields.
#[derive(Clone, Copy, Debug, PartialEq, Eq, Structural)]
pub struct Timestamp {
    pub seconds: i64,
    pub nanos: i32,
}

/// An instant on the UTC time line: the seconds since the Unix epoch and
/// the nanoseconds since the last whole second.
#[derive(Clone, Copy, Debug, PartialEq, Eq, Structural)]
pub struct UtcDateTime {
    pub seconds: i64,
    pub nanos: u32,
}

/// Whether a count of seconds since the Unix epoch and a nanosecond part
/// name an instant that a UTC date-time can hold. The nanosecond part may
/// reach into a second billion only to write a leap second, that is in the
/// last second of a minute.
pub open spec fn utc_representable(seconds: int, nanos: int) -> bool {
    &&& MIN_UTC_SECONDS <= seconds <= MAX_UTC_SECONDS
    &&& 0 <= nanos < 2_000_000_000
    &&& (nanos >= 1_000_000_000 ==> seconds % 60 == 59)
}

/// What `chrono::DateTime::parse_from_str` makes of a text under a format:
/// the instant it reads, as seconds since the Unix epoch and nanoseconds
/// of the second, or nothing where the text does not follow the format.
pub uninterp spec fn datetime_reading(text: Seq<char>, format: Seq<char>) -> Option<(i64, u32)>;

/// The format in which the storage engine writes an instant: date and
/// time of day with a blank between them, an optional fraction of the
/// second, and the offset from UTC in hours, with or without minutes.
pub open spec fn storage_time_format() -> Seq<char> {
    "%Y-%m-%d %H:%M:%S%.f%#z"@
}

/// The date-time that a reading stands for: none where nothing was read
/// or where the instant read is not representable.
pub open spec fn utc_of_reading(reading: Option<(i64, u32)>) -> Option<UtcDateTime> {
    match reading {
        Some((seconds, nanos)) => if utc_representable(seconds as int, nanos as int) {
            Some(UtcDateTime { seconds, nanos })
        } else {
            None
        },
        None => None,
    }
}

/// The date-time that a text in the storage engine's format stands for.
pub open spec fn storage_time(text: Seq<char>) -> Option<UtcDateTime> {
    utc_of_reading(datetime_reading(text, storage_time_format()))
}

impl Timestamp {
    /// Whether `self` comes strictly before `other`, by seconds first and
    /// by the nanosecond part among equal seconds.
    pub open spec fn is_before(self, other: Timestamp) -> bool {
        self.seconds < other.seconds || (self.seconds == other.seconds && self.nanos
            < other.nanos)
    }

    /// Whether a UTC date-time can hold this timestamp as it stands.
    pub open spec fn is_representable(self) -> bool {
        utc_representable(self.seconds as int, self.nanos as int)
    }

    /// The UTC date-time with the same seconds and nanoseconds.
    pub open spec fn as_utc(self) -> UtcDateTime
        recommends
            self.is_representable(),
    {
        UtcDateTime { seconds: self.seconds, nanos: self.nanos as u32 }
    }

    /// Decides `is_before`.
    pub fn before(&self, other: &Timestamp) -> (r: bool)
        ensures
            r == self.is_before(*other),
    {
        self.seconds < other.seconds || (self.seconds == other.seconds && self.nanos
            < other.nanos)
    }
}

impl UtcDateTime {
    /// A date-time is well formed when it names a representable instant.
    pub open spec fn wf(self) -> bool {
        utc_representable(self.seconds as int, self.nanos as int)
    }

    /// Whether `self` comes strictly before `other`.
    pub open spec fn is_before(self, other: UtcDateTime) -> bool {
        self.seconds < other.seconds || (self.seconds == other.seconds && self.nanos
            < other.nanos)
    }

    /// The timestamp with the same seconds and nanoseconds. Nanoseconds
    /// beyond those of a well-formed date-time are cut to 32 bits with
    /// sign.
    pub open spec fn to_timestamp(self) -> Timestamp {
        Timestamp { seconds: self.seconds, nanos: self.nanos as i32 }
    }

    /// Decides `is_before`.
    pub fn before(&self, other: &UtcDateTime) -> (r: bool)
        ensures
            r == self.is_before(*other),
    {
        self.seconds < other.seconds || (self.seconds == other.seconds && self.nanos
            < other.nanos)
    }

    /// The date-time of a reading, where the instant read is representable.
    pub fn from_reading(reading: Option<(i64, u32)>) -> (r: Option<UtcDateTime>)
        ensures
            r == utc_of_reading(reading),
            r matches Some(t) ==> t.wf(),
    {
        match reading {
            Some((seconds, nanos)) => utc_from_timestamp(seconds, nanos),
            None => None,
        }
    }

    /// Reads a text in the storage engine's format.
    pub fn parse_storage_time(text: &str) -> (r: Option<UtcDateTime>)
        ensures
            r == storage_time(text@),
            r matches Some(t) ==> t.wf(),
    {
        Self::from_reading(parse_datetime(text, "%Y-%m-%d %H:%M:%S%.f%#z"))
    }
}

/// Calls `chrono::DateTime::parse_from_str` and reads the result with
/// `timestamp` and `timestamp_subsec_nanos`.
///
/// Trusted: the outcome depends on the text and the format alone, and is
/// known here only by the name `datetime_reading`. The seconds count
/// from the Unix epoch in UTC, whatever offset the text names.
#[verifier::external_body]
fn parse_datetime(text: &str, format: &str) -> (r: Option<(i64, u32)>)
    ensures
        r == datetime_reading(text@, format@),
{
    match chrono::DateTime::parse_from_str(text, format) {
        Ok(t) => Some((t.timestamp(), t.timestamp_subsec_nanos())),
        Err(_) => None,
    }
}

/// Calls `chrono::DateTime::<Utc>::from_timestamp` and reads the result
/// back with `timestamp` and `timestamp_subsec_nanos`.
///
/// Trusted: chrono answers `None` exactly when the seconds fall outside
/// the years -262143 to 262142 or the nanoseconds are no valid part of
/// that second, and otherwise the date-time reads back as the two numbers
/// it was made from.
#[verifier::external_body]
fn utc_from_timestamp(seconds: i64, nanos: u32) -> (r: Option<UtcDateTime>)
    ensures
        r is Some <==> utc_representable(seconds as int, nanos as int),
        r matches Some(t) ==> t.seconds == seconds && t.nanos == nanos,
{
    match chrono::DateTime::from_timestamp(seconds, nanos) {
        Some(t) => Some(UtcDateTime { seconds: t.timestamp(), nanos: t.timestamp_subsec_nanos() }),
        None => None,
    }
}

/// Calls `chrono::Utc::now` and reads the result with `timestamp` and
/// `timestamp_subsec_nanos`.
///
/// Trusted: whatever the clock shows, the reading is a representable
/// instant. On a machine whose clock stands before the year 1970 chrono
/// does not return from the call.
#[verifier::external_body]
fn utc_now() -> (r: UtcDateTime)
    ensures
        r.wf(),
{
    let now = chrono::Utc::now();
    UtcDateTime { seconds: now.timestamp(), nanos: now.timestamp_subsec_nanos() }
}

/// The UTC date-time of a timestamp.
///
/// A representable timestamp converts to the date-time with the same
/// seconds and nanoseconds. Any other timestamp (seconds beyond the years
/// that a date-time can hold, a negative nanosecond part, one of a second
/// or more outside a leap second) is replaced by the clock's reading at
/// the moment of the call: a deliberate, lossy fallback, so that the
/// conversion never fails.
pub fn convert_to_utc_time(ts: Timestamp) -> (r: UtcDateTime)
    ensures
        r.wf(),
        ts.is_representable() ==> r == ts.as_utc(),
{
    if ts.nanos < 0 {
        return utc_now();
    }
    match utc_from_timestamp(ts.seconds, ts.nanos as u32) {
        Some(t) => t,
        None => utc_now(),
    }
}

/// The timestamp of a UTC date-time: the same seconds and nanoseconds.
///
/// A well-formed date-time gives a representable timestamp that converts
/// back to it. Of any other the nanoseconds are cut to 32 bits with sign.
pub fn convert_to_timestamp(dt: UtcDateTime) -> (r: Timestamp)
    ensures
        r == dt.to_timestamp(),
        dt.wf() ==> r.nanos == dt.nanos && r.is_representable() && r.as_utc() == dt,
{
    Timestamp { seconds: dt.seconds, nanos: dt.nanos as i32 }
}

} // verus!
