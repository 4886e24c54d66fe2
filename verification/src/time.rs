//! Wall-clock timestamps with a time-zone-independent representation.
//!
//! A [`Timestamp`] captures a moment as whole seconds since the Unix epoch
//! plus a subsecond nanosecond count.  The range is limited to what can be
//! rendered with a four-digit year, so that the RFC 3339 rendering below is
//! total on well-formed values.

use vstd::prelude::*;

verus! {

/// The last second of year 9999, the largest instant this library renders.
pub const MAX_TIMESTAMP_SECS: i64 = 253402300799;

/// The number of nanoseconds in one second.
pub const NANOS_PER_SEC: u32 = 1000000000;

/// A moment in time: seconds since the Unix epoch, plus nanoseconds.
#[derive(Clone, Copy, PartialEq, Eq, Structural, Debug)]
pub struct Timestamp {
    /// Whole seconds since 1970-01-01T00:00:00Z.
    pub secs: i64,
    /// Nanoseconds within the current second.
    pub nanos: u32,
}

impl Timestamp {
    /// A timestamp is well formed when it lies between the epoch and the end
    /// of year 9999 and its subsecond part is a valid nanosecond count.
    pub open spec fn wf(self) -> bool {
        0 <= self.secs <= MAX_TIMESTAMP_SECS && self.nanos < NANOS_PER_SEC
    }

    /// Build a timestamp from its parts, rejecting out-of-range values.
    pub fn new(secs: i64, nanos: u32) -> (r: Option<Timestamp>)
        ensures
            r is Some <==> (0 <= secs <= MAX_TIMESTAMP_SECS && nanos < NANOS_PER_SEC),
            r matches Some(t) ==> t.secs == secs && t.nanos == nanos && t.wf(),
    {
        if 0 <= secs && secs <= MAX_TIMESTAMP_SECS && nanos < NANOS_PER_SEC {
            Some(Timestamp { secs, nanos })
        } else {
            None
        }
    }

    /// Build a well-formed timestamp from a raw clock reading, clamping any
    /// out-of-range part to the nearest representable value.
    pub fn from_clock(secs: i64, nanos: u32) -> (r: Timestamp)
        ensures
            r.wf(),
            0 <= secs <= MAX_TIMESTAMP_SECS && nanos < NANOS_PER_SEC ==> r.secs == secs
                && r.nanos == nanos,
    {
        let s: i64 = if secs < 0 {
            0
        } else if secs > MAX_TIMESTAMP_SECS {
            MAX_TIMESTAMP_SECS
        } else {
            secs
        };
        let n: u32 = if nanos >= NANOS_PER_SEC {
            NANOS_PER_SEC - 1
        } else {
            nanos
        };
        Timestamp { secs: s, nanos: n }
    }

    /// Capture the current wall-clock time as a well-formed timestamp.
    pub fn now() -> (r: Timestamp)
        ensures
            r.wf(),
    {
        let reading = system_clock();
        let (secs, nanos) = since_epoch(reading);
        Timestamp::from_clock(secs, nanos)
    }
}

/// The RFC 3339 rendering of the timestamp with the given parts.
pub uninterp spec fn rfc3339_of(secs: int, nanos: int) -> Seq<char>;

/// Relies on chrono: `DateTime::<Utc>::from_timestamp` is `Some` for every
/// well-formed timestamp, and `to_rfc3339` renders it as a pure function of
/// the timestamp alone.
#[verifier::external_body]
pub(crate) fn rfc3339(ts: Timestamp) -> (r: String)
    requires
        ts.wf(),
    ensures
        r@ == rfc3339_of(ts.secs as int, ts.nanos as int),
{
    chrono::DateTime::<chrono::Utc>::from_timestamp(ts.secs, ts.nanos).unwrap().to_rfc3339()
}

/// A raw reading of the system clock is a `std::time::SystemTime`; this
/// library only carries it to [`since_epoch`] and never looks inside.
#[verifier::external_type_specification]
#[verifier::external_body]
pub struct ExSystemTime(std::time::SystemTime);

/// Relies on `std::time::SystemTime::now`: reads the system clock; nothing
/// is assumed of the value it returns, and the call does not fail.
#[verifier::external_body]
fn system_clock() -> std::time::SystemTime {
    std::time::SystemTime::now()
}

/// Relies on `std::time::SystemTime::duration_since`: for a reading at or
/// after the Unix epoch it returns the elapsed whole seconds and the
/// subsecond nanoseconds; for one before the epoch it returns an error,
/// taken here as the epoch itself.  Nothing is assumed of the value.
#[verifier::external_body]
fn since_epoch(reading: std::time::SystemTime) -> (r: (i64, u32)) {
    match reading.duration_since(std::time::UNIX_EPOCH) {
        Ok(elapsed) => (elapsed.as_secs() as i64, elapsed.subsec_nanos()),
        Err(_) => (0, 0),
    }
}

} // verus!
