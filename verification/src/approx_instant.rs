//! A monotonic moment means nothing to another process, so a saved start
//! marker is written as the wall-clock time at which the run began, and read
//! back as a moment on the reader's own monotonic timeline. Time that passes
//! between writing and reading counts as time the stopwatch ran.

use crate::clock::Now;
use crate::error::Error;
use crate::timer::span_between;
use vstd::prelude::*;

verus! {

/// Nanoseconds in a second.
pub const NANOS_PER_SEC: u64 = 1_000_000_000;

/// How far ahead of the wall clock a saved start time may lie and still be
/// read, in nanoseconds. Such a start time is taken to be the present.
pub const FUTURE_TOLERANCE: u64 = 1_000_000_000;

/// Seconds and nanoseconds as they stand in a saved file: a length of time,
/// or a point in time counted from the Unix epoch. The fields are signed so
/// that a damaged file can be read and then refused.
#[derive(Clone, Copy, Debug, PartialEq, Eq, Structural)]
pub struct StoredTime {
    pub secs: i64,
    pub nanos: i64,
}

impl StoredTime {
    /// Seconds and nanoseconds together, in nanoseconds.
    pub open spec fn total_nanos(self) -> int {
        self.secs * NANOS_PER_SEC + self.nanos
    }

    /// Neither field is negative, the nanoseconds stay below one second, and
    /// the whole fits in a `u64` of nanoseconds.
    pub open spec fn is_valid(self) -> bool {
        &&& 0 <= self.secs
        &&& 0 <= self.nanos < NANOS_PER_SEC
        &&& self.total_nanos() <= u64::MAX
    }

    /// What the file holds, as nanoseconds: `None` for a value that
    /// `is_valid` refuses.
    pub open spec fn checked_nanos(self) -> Option<nat> {
        if self.is_valid() {
            Some(self.total_nanos() as nat)
        } else {
            None
        }
    }

    /// The valid form of a number of nanoseconds.
    pub open spec fn of_nanos(nanos: nat) -> StoredTime {
        StoredTime {
            secs: (nanos / (NANOS_PER_SEC as nat)) as i64,
            nanos: (nanos % (NANOS_PER_SEC as nat)) as i64,
        }
    }

    /// Splits nanoseconds into seconds and the rest.
    pub fn from_nanos(nanos: u64) -> (stored: StoredTime)
        ensures
            stored == Self::of_nanos(nanos as nat),
            stored.is_valid(),
            stored.total_nanos() == nanos,
    {
        StoredTime { secs: (nanos / NANOS_PER_SEC) as i64, nanos: (nanos % NANOS_PER_SEC) as i64 }
    }

    /// Nanoseconds of a valid value, `None` of any other.
    pub fn to_nanos(&self) -> (nanos: Option<u64>)
        ensures
            nanos == match self.checked_nanos() {
                Some(n) => Some(n as u64),
                None => None,
            },
    {
        if self.secs < 0 || self.nanos < 0 || self.nanos >= NANOS_PER_SEC as i64 {
            return None;
        }
        match (self.secs as u64).checked_mul(NANOS_PER_SEC) {
            Some(whole) => whole.checked_add(self.nanos as u64),
            None => None,
        }
    }
}

/// The wall-clock time, in nanoseconds since the Unix epoch, at which a run
/// that began at the monotonic moment `started` began: the wall clock now,
/// less the length of the run. Negative where that lies before the epoch.
pub open spec fn wall_time_of(started: int, now: Now) -> int {
    now.wall - span_between(started, now.monotonic as int)
}

/// The monotonic moment at which a run began whose wall-clock start time is
/// `stamp`: the monotonic clock now, less the wall-clock time since `stamp`.
pub open spec fn moment_of(stamp: int, now: Now) -> int {
    now.monotonic - span_between(stamp, now.wall as int)
}

/// What `serialize` gives for a start marker.
pub open spec fn serialized(instant: Option<int>, now: Now) -> Result<Option<StoredTime>, Error> {
    match instant {
        None => Ok(None),
        Some(started) => if wall_time_of(started, now) < 0 {
            Err(Error::PersistenceFailure)
        } else {
            Ok(Some(StoredTime::of_nanos(wall_time_of(started, now) as nat)))
        },
    }
}

/// What `deserialize` gives for a saved start time.
pub open spec fn deserialized(stored: Option<StoredTime>, now: Now) -> Result<Option<int>, Error> {
    match stored {
        None => Ok(None),
        Some(time) => match time.checked_nanos() {
            None => Err(Error::MalformedTimer),
            Some(stamp) => if stamp > now.wall + FUTURE_TOLERANCE || moment_of(stamp as int, now)
                < i64::MIN {
                Err(Error::MalformedTimer)
            } else {
                Ok(Some(moment_of(stamp as int, now)))
            },
        },
    }
}

/// A start marker as a mathematical integer.
pub open spec fn marker(instant: Option<i64>) -> Option<int> {
    match instant {
        Some(started) => Some(started as int),
        None => None,
    }
}

/// What `deserialize` returned, the start marker as a mathematical integer.
pub open spec fn found(out: Result<Option<i64>, Error>) -> Result<Option<int>, Error> {
    match out {
        Ok(instant) => Ok(marker(instant)),
        Err(e) => Err(e),
    }
}

/// The saved form of a start marker: the wall-clock time at which the run
/// began, as clocks reading `now` see it. A stopped stopwatch has no start
/// marker, and none is written. A run that began before the Unix epoch
/// cannot be written: that is a `PersistenceFailure`.
pub fn serialize(instant: &Option<i64>, now: Now) -> (out: Result<Option<StoredTime>, Error>)
    ensures
        out == serialized(marker(*instant), now),
        *instant is None ==> out == Ok::<Option<StoredTime>, Error>(None),
{
    match *instant {
        None => Ok(None),
        Some(started) => {
            let run: u64 = if now.monotonic > started {
                (now.monotonic as i128 - started as i128) as u64
            } else {
                0
            };
            match now.wall.checked_sub(run) {
                Some(stamp) => Ok(Some(StoredTime::from_nanos(stamp))),
                None => Err(Error::PersistenceFailure),
            }
        },
    }
}

/// The start marker that a saved start time stands for on the monotonic
/// timeline of clocks reading `now`; none where none was saved. The saved
/// time is refused as a `MalformedTimer` where its fields are no valid time,
/// where it lies further in the future than `FUTURE_TOLERANCE`, and where
/// the moment it stands for is too early for an `i64`.
pub fn deserialize(stored: &Option<StoredTime>, now: Now) -> (out: Result<Option<i64>, Error>)
    ensures
        found(out) == deserialized(*stored, now),
        *stored is None ==> out == Ok::<Option<i64>, Error>(None),
{
    match stored {
        None => Ok(None),
        Some(time) => match time.to_nanos() {
            None => Err(Error::MalformedTimer),
            Some(stamp) => {
                if stamp > now.wall && stamp - now.wall > FUTURE_TOLERANCE {
                    return Err(Error::MalformedTimer);
                }
                let gap: u64 = if now.wall > stamp {
                    now.wall - stamp
                } else {
                    0
                };
                match now.monotonic.checked_sub_unsigned(gap) {
                    Some(moment) => Ok(Some(moment)),
                    None => Err(Error::MalformedTimer),
                }
            },
        },
    }
}

} // verus!
