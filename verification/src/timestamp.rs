//! Instants on the UTC time line, at microsecond resolution.

use vstd::prelude::*;

use crate::error::BgpStreamError;

verus! {

/// Earliest epoch second that has a calendar date: midnight of
/// 1 January -9999.
pub const MIN_UNIX_SECONDS: i64 = -377_705_116_800;

/// Latest epoch second that has a calendar date: the last second of
/// 31 December 9999.
pub const MAX_UNIX_SECONDS: i64 = 253_402_300_799;

/// Microseconds in a second.
pub const MICROS_PER_SECOND: u32 = 1_000_000;

/// An instant: whole seconds since the Unix epoch and the microseconds
/// into that second.
#[derive(Debug, Clone, Copy, PartialEq, Eq, Hash, Structural)]
pub struct Timestamp {
    pub seconds: i64,
    pub microseconds: u32,
}

/// Whether epoch seconds fall on a calendar date.
pub open spec fn unix_seconds_in_range(secs: int) -> bool {
    MIN_UNIX_SECONDS <= secs <= MAX_UNIX_SECONDS
}

impl Timestamp {
    /// Microseconds since the Unix epoch.
    pub open spec fn as_micros(self) -> int {
        self.seconds * 1_000_000 + self.microseconds
    }

    /// A timestamp is well formed when its microseconds stay below a second.
    pub open spec fn wf(self) -> bool {
        self.microseconds < MICROS_PER_SECOND
    }

    /// The instant `micros` microseconds after epoch second `secs`.
    pub open spec fn spec_from_unix(secs: int, micros: int) -> Result<Timestamp, BgpStreamError> {
        if unix_seconds_in_range(secs) {
            Ok(
                Timestamp {
                    seconds: (secs + micros / 1_000_000) as i64,
                    microseconds: (micros % 1_000_000) as u32,
                },
            )
        } else {
            Err(BgpStreamError::Timestamp)
        }
    }

    /// Resolves epoch seconds and microseconds to an instant. Seconds
    /// without a calendar date are refused with `Timestamp`; microseconds
    /// beyond a second carry over into the seconds.
    pub fn from_unix_timestamp(secs: i64, micros: u32) -> (r: Result<Timestamp, BgpStreamError>)
        ensures
            r == Self::spec_from_unix(secs as int, micros as int),
            r is Ok <==> unix_seconds_in_range(secs as int),
            r is Ok ==> r->Ok_0.wf() && r->Ok_0.as_micros() == secs * 1_000_000 + micros,
    {
        match check_unix_seconds(secs) {
            Ok(()) => {
                let carry: u32 = micros / MICROS_PER_SECOND;
                let rest: u32 = micros % MICROS_PER_SECOND;
                Ok(Timestamp { seconds: secs + carry as i64, microseconds: rest })
            },
            Err(_) => Err(BgpStreamError::Timestamp),
        }
    }

    /// Whole seconds since the Unix epoch.
    pub fn unix_timestamp(&self) -> (secs: i64)
        ensures
            secs == self.seconds,
    {
        self.seconds
    }

    /// Microseconds into the current second.
    pub fn microsecond(&self) -> (micros: u32)
        ensures
            micros == self.microseconds,
    {
        self.microseconds
    }
}

/// `time::error::ComponentRange`, the error with which `time` refuses a
/// value out of range. Nothing is assumed of what it holds.
#[verifier::external_type_specification]
#[verifier::external_body]
pub struct ExComponentRange(time::error::ComponentRange);

/// `time::OffsetDateTime::from_unix_timestamp`: a date is built exactly for
/// the seconds from `MIN_UNIX_SECONDS` to `MAX_UNIX_SECONDS`, and every
/// other input is refused.
#[verifier::external_body]
fn check_unix_seconds(secs: i64) -> (r: Result<(), time::error::ComponentRange>)
    ensures
        r is Ok <==> unix_seconds_in_range(secs as int),
{
    match time::OffsetDateTime::from_unix_timestamp(secs) {
        Ok(_) => Ok(()),
        Err(e) => Err(e),
    }
}

} // verus!
