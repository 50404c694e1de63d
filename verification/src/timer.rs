//! The stopwatch: a start marker on the monotonic timeline and the time
//! banked from earlier runs.

use crate::approx_instant::deserialize;
use crate::approx_instant::deserialized;
use crate::approx_instant::marker;
use crate::approx_instant::serialize;
use crate::approx_instant::serialized;
use crate::approx_instant::StoredTime;
use crate::clock::Clock;
use crate::clock::Now;
use crate::error::Error;
use crate::text::decimal;
use crate::text::to_decimal;
use vstd::prelude::*;

verus! {

/// Nanoseconds in a millisecond.
pub const NANOS_PER_MILLI: u64 = 1_000_000;

/// A length of time in nanoseconds, held to the range a stopwatch can store.
pub open spec fn saturate(nanos: int) -> nat {
    if nanos <= 0 {
        0
    } else if nanos >= u64::MAX {
        u64::MAX as nat
    } else {
        nanos as nat
    }
}

/// The time from `earlier` to `later` on one timeline, zero where `later` is
/// not after `earlier`.
pub open spec fn span_between(earlier: int, later: int) -> nat {
    if later > earlier {
        (later - earlier) as nat
    } else {
        0
    }
}

/// What a stopwatch is: the moment its current run began, if it is running,
/// and the nanoseconds banked from the runs before.
pub struct StopwatchView {
    pub start_time: Option<int>,
    pub elapsed: nat,
}

impl StopwatchView {
    /// The values that a stored stopwatch can take.
    pub open spec fn wf(self) -> bool {
        &&& self.elapsed <= u64::MAX
        &&& self.start_time matches Some(started) ==> i64::MIN <= started <= i64::MAX
    }

    /// Stopped, with nothing banked.
    pub open spec fn zero() -> Self {
        StopwatchView { start_time: None, elapsed: 0 }
    }

    /// Running means having a start marker.
    pub open spec fn is_running(self) -> bool {
        self.start_time.is_some()
    }

    /// The length of the current run as seen at `now`.
    pub open spec fn running_for(self, now: int) -> nat {
        match self.start_time {
            Some(started) => span_between(started, now),
            None => 0,
        }
    }

    /// Banked time plus the current run, saturating.
    pub open spec fn elapsed_at(self, now: int) -> nat {
        saturate((self.elapsed + self.running_for(now)) as int)
    }

    /// Whole milliseconds of `elapsed_at`.
    pub open spec fn elapsed_ms_at(self, now: int) -> nat {
        self.elapsed_at(now) / (NANOS_PER_MILLI as nat)
    }

    /// Running from `now`, with everything counted so far banked.
    pub open spec fn start(self, now: int) -> Self {
        StopwatchView { start_time: Some(now), elapsed: self.elapsed_at(now) }
    }

    /// Stopped, with everything counted so far banked.
    pub open spec fn stop(self, now: int) -> Self {
        StopwatchView { start_time: None, elapsed: self.elapsed_at(now) }
    }

    /// The reading in whole milliseconds with its unit, such as `1500ms`.
    pub open spec fn display_at(self, now: int) -> Seq<char> {
        decimal(self.elapsed_ms_at(now)) + "ms"@
    }

    /// Stopped, with nothing banked.
    pub open spec fn reset(self) -> Self {
        Self::zero()
    }

    /// Running from `now`, with nothing banked.
    pub open spec fn restart(self, now: int) -> Self {
        self.reset().start(now)
    }

    /// The saved form: the banked time, and for a running stopwatch the
    /// wall-clock time at which its run began.
    pub open spec fn encode(self, now: Now) -> Result<TimerRecord, Error> {
        match serialized(self.start_time, now) {
            Ok(start_time) => Ok(
                TimerRecord { start_time, elapsed: StoredTime::of_nanos(self.elapsed) },
            ),
            Err(e) => Err(e),
        }
    }

    /// The stopwatch that a saved form stands for, as seen by clocks that
    /// read `now`.
    pub open spec fn decode(record: TimerRecord, now: Now) -> Result<StopwatchView, Error> {
        match record.elapsed.checked_nanos() {
            None => Err(Error::MalformedTimer),
            Some(elapsed) => match deserialized(record.start_time, now) {
                Ok(start_time) => Ok(StopwatchView { start_time, elapsed }),
                Err(e) => Err(e),
            },
        }
    }
}

/// A stopwatch as it stands in a saved file.
#[derive(Clone, Copy, Debug, PartialEq, Eq, Structural)]
pub struct TimerRecord {
    /// Present exactly for a running stopwatch.
    pub start_time: Option<StoredTime>,
    /// The banked time.
    pub elapsed: StoredTime,
}

/// A pausable timer. Moments are nanoseconds on a monotonic timeline and may
/// be negative: a stopwatch restored from disk began before this process did.
#[derive(Clone, Copy, Debug, PartialEq, Eq)]
pub struct Stopwatch {
    start_time: Option<i64>,
    elapsed: u64,
}

impl View for Stopwatch {
    type V = StopwatchView;

    closed spec fn view(&self) -> StopwatchView {
        StopwatchView { start_time: marker(self.start_time), elapsed: self.elapsed as nat }
    }
}

impl Default for Stopwatch {
    /// Stopped, with nothing counted.
    fn default() -> (sw: Stopwatch)
        ensures
            sw@ == StopwatchView::zero(),
    {
        Stopwatch { start_time: None, elapsed: 0 }
    }
}

/// The nanoseconds from `earlier` to `later`, zero where the clock has not
/// moved forward.
fn nanos_between(earlier: i64, later: i64) -> (span: u64)
    ensures
        span == span_between(earlier as int, later as int),
{
    if later > earlier {
        (later as i128 - earlier as i128) as u64
    } else {
        0
    }
}

impl Stopwatch {
    /// Every stored stopwatch is well formed.
    pub proof fn lemma_view_wf(&self)
        ensures
            self@.wf(),
    {
    }

    /// A stopped stopwatch that has counted nothing.
    pub fn new() -> (sw: Stopwatch)
        ensures
            sw@ == StopwatchView::zero(),
    {
        Stopwatch { start_time: None, elapsed: 0 }
    }

    /// A fresh stopwatch running from `now`.
    pub fn start_new_at(now: i64) -> (sw: Stopwatch)
        ensures
            sw@ == StopwatchView::zero().start(now as int),
    {
        let mut sw = Stopwatch::new();
        sw.start_at(now);
        sw
    }

    /// Sets the start marker to `now`. On a running stopwatch the run so far
    /// is banked first, so that no counted time is lost.
    pub fn start_at(&mut self, now: i64)
        ensures
            final(self)@ == old(self)@.start(now as int),
    {
        self.elapsed = self.elapsed_at(now);
        self.start_time = Some(now);
    }

    /// Banks the run so far and clears the start marker. Stopping a stopped
    /// stopwatch changes nothing.
    pub fn stop_at(&mut self, now: i64)
        ensures
            final(self)@ == old(self)@.stop(now as int),
    {
        self.elapsed = self.elapsed_at(now);
        self.start_time = None;
    }

    /// Stops counting and forgets what was counted.
    pub fn reset(&mut self)
        ensures
            final(self)@ == old(self)@.reset(),
    {
        self.elapsed = 0;
        self.start_time = None;
    }

    /// Forgets what was counted and starts anew from `now`.
    pub fn restart_at(&mut self, now: i64)
        ensures
            final(self)@ == old(self)@.restart(now as int),
    {
        self.reset();
        self.start_at(now);
    }

    /// Whether the stopwatch is counting.
    pub fn is_running(&self) -> (running: bool)
        ensures
            running == self@.is_running(),
    {
        self.start_time.is_some()
    }

    /// The nanoseconds counted as seen at `now`.
    pub fn elapsed_at(&self, now: i64) -> (total: u64)
        ensures
            total == self@.elapsed_at(now as int),
    {
        match self.start_time {
            Some(started) => self.elapsed.saturating_add(nanos_between(started, now)),
            None => self.elapsed,
        }
    }

    /// `elapsed_at` in whole milliseconds, rounded down.
    pub fn elapsed_ms_at(&self, now: i64) -> (ms: i64)
        ensures
            ms == self@.elapsed_ms_at(now as int),
            ms >= 0,
    {
        (self.elapsed_at(now) / NANOS_PER_MILLI) as i64
    }

    /// The reading at `now` as text: whole milliseconds and the unit.
    pub fn display_at(&self, now: i64) -> (text: String)
        ensures
            text@ == self@.display_at(now as int),
    {
        let mut text = to_decimal(self.elapsed_at(now) / NANOS_PER_MILLI);
        text.append("ms");
        text
    }

    /// The saved form of this stopwatch. It fails, with nothing written, only
    /// for a run that began before the Unix epoch.
    pub fn encode_at(&self, now: Now) -> (out: Result<TimerRecord, Error>)
        ensures
            out == self@.encode(now),
            !self@.is_running() ==> out is Ok && out->Ok_0.start_time is None,
    {
        match serialize(&self.start_time, now) {
            Ok(start_time) => Ok(
                TimerRecord { start_time, elapsed: StoredTime::from_nanos(self.elapsed) },
            ),
            Err(e) => Err(e),
        }
    }

    /// The stopwatch that `record` stands for, or `MalformedTimer`.
    pub fn decode_at(record: &TimerRecord, now: Now) -> (out: Result<Stopwatch, Error>)
        ensures
            match StopwatchView::decode(*record, now) {
                Ok(restored) => out is Ok && out->Ok_0@ == restored,
                Err(e) => out == Err::<Stopwatch, Error>(e),
            },
            record.start_time is None && out is Ok ==> !out->Ok_0@.is_running(),
    {
        match record.elapsed.to_nanos() {
            None => Err(Error::MalformedTimer),
            Some(elapsed) => match deserialize(&record.start_time, now) {
                Ok(start_time) => Ok(Stopwatch { start_time, elapsed }),
                Err(e) => Err(e),
            },
        }
    }

    /// A fresh stopwatch running from the moment that the clock shows when
    /// it is read.
    pub fn start_new(clock: &mut Clock) -> (sw: Stopwatch)
        ensures
            old(clock)@.monotonic <= final(clock)@.monotonic,
            sw@ == StopwatchView::zero().start(final(clock)@.monotonic as int),
    {
        Stopwatch::start_new_at(clock.now().monotonic)
    }

    /// Reads the clock and does `start_at` that moment.
    pub fn start(&mut self, clock: &mut Clock)
        ensures
            old(clock)@.monotonic <= final(clock)@.monotonic,
            final(self)@ == old(self)@.start(final(clock)@.monotonic as int),
    {
        self.start_at(clock.now().monotonic);
    }

    /// Reads the clock and does `stop_at` that moment.
    pub fn stop(&mut self, clock: &mut Clock)
        ensures
            old(clock)@.monotonic <= final(clock)@.monotonic,
            final(self)@ == old(self)@.stop(final(clock)@.monotonic as int),
    {
        self.stop_at(clock.now().monotonic);
    }

    /// Reads the clock and does `restart_at` that moment.
    pub fn restart(&mut self, clock: &mut Clock)
        ensures
            old(clock)@.monotonic <= final(clock)@.monotonic,
            final(self)@ == old(self)@.restart(final(clock)@.monotonic as int),
    {
        self.restart_at(clock.now().monotonic);
    }

    /// Reads the clock and gives `elapsed_at` that moment. Since the clock
    /// does not go back, neither does the reading of a stopwatch from one
    /// call to the next.
    pub fn elapsed(&self, clock: &mut Clock) -> (total: u64)
        ensures
            old(clock)@.monotonic <= final(clock)@.monotonic,
            total == self@.elapsed_at(final(clock)@.monotonic as int),
            total >= self@.elapsed_at(old(clock)@.monotonic as int),
    {
        self.elapsed_at(clock.now().monotonic)
    }

    /// Reads the clock and gives `elapsed_ms_at` that moment.
    pub fn elapsed_ms(&self, clock: &mut Clock) -> (ms: i64)
        ensures
            old(clock)@.monotonic <= final(clock)@.monotonic,
            ms == self@.elapsed_ms_at(final(clock)@.monotonic as int),
            ms >= self@.elapsed_ms_at(old(clock)@.monotonic as int),
            ms >= 0,
    {
        let ghost before = clock@.monotonic;
        let now = clock.now().monotonic;
        proof {
            vstd::arithmetic::div_mod::lemma_div_is_ordered(
                self@.elapsed_at(before as int) as int,
                self@.elapsed_at(now as int) as int,
                NANOS_PER_MILLI as int,
            );
        }
        self.elapsed_ms_at(now)
    }

    /// Reads the clock and gives `display_at` that moment.
    pub fn display(&self, clock: &mut Clock) -> (text: String)
        ensures
            old(clock)@.monotonic <= final(clock)@.monotonic,
            text@ == self@.display_at(final(clock)@.monotonic as int),
    {
        self.display_at(clock.now().monotonic)
    }

    /// Reads the clock and does `encode_at` that reading.
    pub fn encode(&self, clock: &mut Clock) -> (out: Result<TimerRecord, Error>)
        ensures
            old(clock)@.monotonic <= final(clock)@.monotonic,
            out == self@.encode(final(clock)@),
    {
        self.encode_at(clock.now())
    }

    /// Reads the clock and does `decode_at` that reading.
    pub fn decode(record: &TimerRecord, clock: &mut Clock) -> (out: Result<Stopwatch, Error>)
        ensures
            old(clock)@.monotonic <= final(clock)@.monotonic,
            match StopwatchView::decode(*record, final(clock)@) {
                Ok(restored) => out is Ok && out->Ok_0@ == restored,
                Err(e) => out == Err::<Stopwatch, Error>(e),
            },
    {
        Stopwatch::decode_at(record, clock.now())
    }
}

} // verus!
