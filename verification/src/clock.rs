//! Where the time comes from. The rest of the library sees two numbers: a
//! moment on a monotonic timeline that starts when the clock is made, and the
//! wall-clock time since the Unix epoch, both in nanoseconds.

use std::time::Duration;
use std::time::Instant;
use std::time::SystemTime;
use std::time::UNIX_EPOCH;
use vstd::prelude::*;

verus! {

/// `std::time::Instant`, carried through as an opaque value.
#[verifier::external_type_specification]
#[verifier::external_body]
pub struct ExInstant(std::time::Instant);

/// `std::time::SystemTime`, carried through as an opaque value.
#[verifier::external_type_specification]
#[verifier::external_body]
pub struct ExSystemTime(std::time::SystemTime);

/// Both clocks, read together.
#[derive(Clone, Copy, Debug, PartialEq, Eq, Structural)]
pub struct Now {
    /// Nanoseconds on the monotonic timeline.
    pub monotonic: i64,
    /// Nanoseconds since the Unix epoch.
    pub wall: u64,
}

/// A monotonic clock with a fixed origin, and the wall clock beside it. The
/// clock remembers its last reading, and its monotonic moments never go
/// back: a moment that the system reports as earlier than the last one is
/// read as the last one.
pub struct Clock {
    origin: Instant,
    last: Now,
}

impl View for Clock {
    type V = Now;

    /// The last reading.
    closed spec fn view(&self) -> Now {
        self.last
    }
}

/// `Instant::now`: the current moment of the monotonic clock. Nothing is
/// claimed of it.
#[verifier::external_body]
fn instant_now() -> Instant {
    Instant::now()
}

/// `Instant::elapsed`: the time since `origin` on the monotonic clock.
/// Nothing is claimed of it.
#[verifier::external_body]
fn instant_elapsed(origin: &Instant) -> Duration {
    origin.elapsed()
}

/// `SystemTime::now`: the current wall-clock time. Nothing is claimed of it.
#[verifier::external_body]
fn system_now() -> SystemTime {
    SystemTime::now()
}

/// `SystemTime::duration_since` the Unix epoch: `None` where `time` lies
/// before it. Nothing else is claimed.
#[verifier::external_body]
fn since_unix_epoch(time: &SystemTime) -> Option<Duration> {
    match time.duration_since(UNIX_EPOCH) {
        Ok(since) => Some(since),
        Err(_) => None,
    }
}

/// `Duration::as_nanos`: the whole duration in nanoseconds. A `Duration` is
/// opaque here, so nothing is claimed of the number.
#[verifier::external_body]
fn duration_nanos(duration: &Duration) -> u128 {
    duration.as_nanos()
}

impl Clock {
    /// A clock whose monotonic timeline starts now, at zero.
    pub fn new() -> (clock: Clock)
        ensures
            clock@.monotonic == 0,
    {
        let mut clock = Clock { origin: instant_now(), last: Now { monotonic: 0, wall: 0 } };
        clock.last.wall = clock.read_wall();
        clock
    }

    /// The monotonic moment: nanoseconds since this clock was made, held to
    /// what an `i64` can carry.
    fn read_monotonic(&self) -> (moment: i64)
        ensures
            moment >= 0,
    {
        let since = instant_elapsed(&self.origin);
        moment_from(duration_nanos(&since))
    }

    /// The wall-clock time: nanoseconds since the Unix epoch, zero where the
    /// system clock stands before it, held to what a `u64` can carry.
    fn read_wall(&self) -> u64 {
        let time = system_now();
        let since_epoch = match since_unix_epoch(&time) {
            Some(since) => Some(duration_nanos(&since)),
            None => None,
        };
        wall_from(since_epoch)
    }

    /// Reads both clocks. The monotonic moment is never before that of the
    /// reading before; of the wall-clock time nothing is known.
    pub fn now(&mut self) -> (now: Now)
        ensures
            now == final(self)@,
            old(self)@.monotonic <= now.monotonic,
    {
        let moment = self.read_monotonic();
        let wall = self.read_wall();
        self.last = reading_after(self.last, moment, wall);
        self.last
    }

    /// The last reading, without reading again.
    pub fn last(&self) -> (now: Now)
        ensures
            now == self@,
    {
        self.last
    }
}

/// The monotonic moment that stands for `nanos` nanoseconds since the clock
/// was made: that number, or the last moment there is where it is larger.
pub open spec fn moment_of(nanos: u128) -> i64 {
    if nanos > i64::MAX {
        i64::MAX
    } else {
        nanos as i64
    }
}

/// The wall-clock time that stands for what the system clock shows: the
/// nanoseconds since the Unix epoch, or the largest number there is where
/// they are more; zero for a system clock that stands before the epoch.
pub open spec fn wall_of(since_epoch: Option<u128>) -> u64 {
    match since_epoch {
        Some(nanos) => if nanos > u64::MAX {
            u64::MAX
        } else {
            nanos as u64
        },
        None => 0,
    }
}

/// The reading that follows `last` when the clocks show `moment` and `wall`:
/// the monotonic moment does not go back behind that of `last`, the
/// wall-clock time is taken as it is.
pub open spec fn next_reading(last: Now, moment: i64, wall: u64) -> Now {
    Now {
        monotonic: if moment < last.monotonic {
            last.monotonic
        } else {
            moment
        },
        wall,
    }
}

/// The monotonic moment for `nanos` nanoseconds since the clock was made.
pub fn moment_from(nanos: u128) -> (moment: i64)
    ensures
        moment == moment_of(nanos),
        moment >= 0,
{
    if nanos > 0x7fff_ffff_ffff_ffff {
        i64::MAX
    } else {
        nanos as i64
    }
}

/// The wall-clock time for a system clock that shows `since_epoch`
/// nanoseconds since the Unix epoch, or a time before it.
pub fn wall_from(since_epoch: Option<u128>) -> (wall: u64)
    ensures
        wall == wall_of(since_epoch),
{
    match since_epoch {
        Some(nanos) => {
            if nanos > 0xffff_ffff_ffff_ffff {
                u64::MAX
            } else {
                nanos as u64
            }
        },
        None => 0,
    }
}

/// The reading that follows `last` when the clocks show `moment` and `wall`.
pub fn reading_after(last: Now, moment: i64, wall: u64) -> (now: Now)
    ensures
        now == next_reading(last, moment, wall),
        last.monotonic <= now.monotonic,
{
    Now {
        monotonic: if moment < last.monotonic {
            last.monotonic
        } else {
            moment
        },
        wall,
    }
}

} // verus!
