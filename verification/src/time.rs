//! Wall-clock timestamps of raw items.

use vstd::prelude::*;

verus! {

/// A point in time: milliseconds since the Unix epoch.
#[derive(Clone, Copy, Debug, PartialEq, Eq, Structural)]
pub struct Timestamp {
    pub unix_millis: u64,
}

/// Reads the system clock with `std::time::SystemTime::now` and hands out
/// the whole milliseconds since `UNIX_EPOCH` (`duration_since`,
/// `Duration::as_millis`), or `None` where the clock is before the epoch.
/// Nothing is claimed of the value: it is the clock's.
#[verifier::external_body]
fn clock_unix_millis() -> Option<u128> {
    match std::time::SystemTime::now().duration_since(std::time::UNIX_EPOCH) {
        Ok(d) => Some(d.as_millis()),
        Err(_) => None,
    }
}

/// The timestamp for a clock reading in Unix milliseconds: a reading before
/// the epoch (`None`) is the epoch; one past the range of the field is its
/// largest value.
pub open spec fn spec_from_clock_millis(reading: Option<u128>) -> Timestamp {
    match reading {
        Some(ms) => Timestamp { unix_millis: if ms <= u64::MAX { ms as u64 } else { u64::MAX } },
        None => Timestamp { unix_millis: 0 },
    }
}

impl Timestamp {
    /// The timestamp for a clock reading in Unix milliseconds (see
    /// `spec_from_clock_millis`).
    pub fn from_clock_millis(reading: Option<u128>) -> (r: Timestamp)
        ensures
            r == spec_from_clock_millis(reading),
    {
        match reading {
            Some(ms) => {
                if ms <= 0xFFFF_FFFF_FFFF_FFFFu128 {
                    Timestamp { unix_millis: ms as u64 }
                } else {
                    Timestamp { unix_millis: u64::MAX }
                }
            },
            None => Timestamp { unix_millis: 0 },
        }
    }
}

/// The current time: the system clock's reading, converted by
/// `Timestamp::from_clock_millis`.
pub(crate) fn now() -> (r: Timestamp) {
    Timestamp::from_clock_millis(clock_unix_millis())
}

} // verus!
