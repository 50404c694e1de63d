//! What holds of every stopwatch: its reading over time, and what survives
//! saving and restoring it.

use crate::approx_instant::moment_of;
use crate::approx_instant::wall_time_of;
use crate::approx_instant::StoredTime;
use crate::approx_instant::FUTURE_TOLERANCE;
use crate::clock::Now;
use crate::error::Error;
use crate::timer::saturate;
use crate::timer::StopwatchView;
use crate::timer::NANOS_PER_MILLI;
use crate::timer::TimerRecord;
use vstd::prelude::*;

verus! {

/// One call on a stopwatch, made at a moment of the monotonic clock.
pub enum Call {
    Start(int),
    Stop(int),
    Reset,
}

/// The moment at which a call was made; of a reset, which reads no clock,
/// zero.
pub open spec fn moment(call: Call) -> int {
    match call {
        Call::Start(now) => now,
        Call::Stop(now) => now,
        Call::Reset => 0,
    }
}

/// The stopwatch after one call.
pub open spec fn after_call(sw: StopwatchView, call: Call) -> StopwatchView {
    match call {
        Call::Start(now) => sw.start(now),
        Call::Stop(now) => sw.stop(now),
        Call::Reset => sw.reset(),
    }
}

/// The stopwatch after a sequence of calls, made in order.
pub open spec fn after_calls(sw: StopwatchView, calls: Seq<Call>) -> StopwatchView
    decreases calls.len(),
{
    if calls.len() == 0 {
        sw
    } else {
        after_call(after_calls(sw, calls.drop_last()), calls.last())
    }
}

/// The reading of a stopwatch never goes down as the clock goes on.
pub proof fn lemma_elapsed_never_decreases(sw: StopwatchView, earlier: int, later: int)
    requires
        earlier <= later,
    ensures
        sw.elapsed_at(earlier) <= sw.elapsed_at(later),
{
}

/// The reading of a stopped stopwatch is its banked time, whatever the clock
/// shows.
pub proof fn lemma_elapsed_constant_while_stopped(sw: StopwatchView, now: int, then: int)
    requires
        sw.wf(),
        !sw.is_running(),
    ensures
        sw.elapsed_at(now) == sw.elapsed,
        sw.elapsed_at(now) == sw.elapsed_at(then),
{
}

/// Starting and stopping leave the reading at that moment as it was, and
/// resetting brings it to zero.
pub proof fn lemma_calls_keep_the_reading(sw: StopwatchView, now: int)
    ensures
        sw.start(now).elapsed_at(now) == sw.elapsed_at(now),
        sw.stop(now).elapsed_at(now) == sw.elapsed_at(now),
        sw.reset().elapsed_at(now) == 0,
        sw.restart(now).elapsed_at(now) == 0,
{
}

/// Whatever calls were made on a stopwatch, and in whatever order: from then
/// on its reading never goes down while it runs, and does not move while it
/// is stopped.
pub proof fn lemma_elapsed_after_any_calls(
    sw: StopwatchView,
    calls: Seq<Call>,
    earlier: int,
    later: int,
)
    requires
        earlier <= later,
    ensures
        after_calls(sw, calls).elapsed_at(earlier) <= after_calls(sw, calls).elapsed_at(later),
        !after_calls(sw, calls).is_running() ==> after_calls(sw, calls).elapsed_at(earlier)
            == after_calls(sw, calls).elapsed_at(later),
{
    let reached = after_calls(sw, calls);
    lemma_elapsed_never_decreases(reached, earlier, later);
}

/// Over calls to start and stop made at moments that do not go back, the
/// reading only grows: what a stopwatch shows after the calls, at or after
/// the last of them, is at least what it showed before them.
pub proof fn lemma_reading_grows_over_calls(
    sw: StopwatchView,
    calls: Seq<Call>,
    before: int,
    after: int,
)
    requires
        before <= after,
        forall|i: int| 0 <= i < calls.len() ==> calls[i] != Call::Reset,
        forall|i: int| 0 <= i < calls.len() ==> before <= #[trigger] moment(calls[i]) <= after,
        forall|i: int, j: int|
            0 <= i <= j < calls.len() ==> #[trigger] moment(calls[i]) <= #[trigger] moment(
                calls[j],
            ),
    ensures
        sw.elapsed_at(before) <= after_calls(sw, calls).elapsed_at(after),
    decreases calls.len(),
{
    if calls.len() > 0 {
        let earlier_calls = calls.drop_last();
        let at = moment(calls.last());
        lemma_reading_grows_over_calls(sw, earlier_calls, before, at);
        let reached = after_calls(sw, earlier_calls);
        lemma_calls_keep_the_reading(reached, at);
        lemma_elapsed_never_decreases(after_call(reached, calls.last()), at, after);
    }
}

/// The wall-clock time that counts towards a stopwatch between saving and
/// restoring it: all of it while it runs, none while it is stopped.
pub open spec fn time_away(sw: StopwatchView, saved_at: Now, restored_at: Now) -> int {
    if sw.is_running() {
        restored_at.wall - saved_at.wall
    } else {
        0
    }
}

/// Saving a stopwatch and restoring it, in another process and later by the
/// wall clock, gives a stopwatch in the same state with the same banked
/// time, whose reading is the old reading plus the time away. Restored with
/// no time away it reads the same to the nanosecond, and so to the
/// millisecond; with time away, its reading in milliseconds is the old one
/// plus the milliseconds away, or one more. Saving fails only for a run
/// that began before the Unix epoch, restoring only where the start of the
/// run is too early for the restoring clock.
pub proof fn lemma_restore_of_saved(sw: StopwatchView, saved_at: Now, restored_at: Now)
    requires
        sw.wf(),
        saved_at.wall <= restored_at.wall,
    ensures
        match sw.encode(saved_at) {
            Ok(record) => match StopwatchView::decode(record, restored_at) {
                Ok(back) => {
                    &&& back.wf()
                    &&& back.is_running() == sw.is_running()
                    &&& back.elapsed == sw.elapsed
                    &&& back.elapsed_at(restored_at.monotonic as int) == saturate(
                        sw.elapsed_at(saved_at.monotonic as int) + time_away(
                            sw,
                            saved_at,
                            restored_at,
                        ),
                    )
                    &&& time_away(sw, saved_at, restored_at) == 0 ==> back.elapsed_ms_at(
                        restored_at.monotonic as int,
                    ) == sw.elapsed_ms_at(saved_at.monotonic as int)
                    &&& sw.elapsed_at(saved_at.monotonic as int) + time_away(
                        sw,
                        saved_at,
                        restored_at,
                    ) <= u64::MAX ==> 0 <= back.elapsed_ms_at(restored_at.monotonic as int) - (
                    sw.elapsed_ms_at(saved_at.monotonic as int) + time_away(
                        sw,
                        saved_at,
                        restored_at,
                    ) / (NANOS_PER_MILLI as int)) <= 1
                },
                Err(e) => {
                    &&& e == Error::MalformedTimer
                    &&& sw.is_running()
                    &&& moment_of(wall_time_of(sw.start_time.unwrap(), saved_at), restored_at)
                        < i64::MIN
                },
            },
            Err(e) => {
                &&& e == Error::PersistenceFailure
                &&& sw.is_running()
                &&& wall_time_of(sw.start_time.unwrap(), saved_at) < 0
            },
        },
{
    lemma_stored_time_round_trip(sw.elapsed);
    if sw.is_running() {
        let stamp = wall_time_of(sw.start_time.unwrap(), saved_at);
        if stamp >= 0 {
            lemma_stored_time_round_trip(stamp as nat);
        }
    }
}

/// Splitting nanoseconds into seconds and the rest, and putting them
/// together again, gives the nanoseconds back.
pub proof fn lemma_stored_time_round_trip(nanos: nat)
    requires
        nanos <= u64::MAX,
    ensures
        StoredTime::of_nanos(nanos).is_valid(),
        StoredTime::of_nanos(nanos).checked_nanos() == Some(nanos),
{
}

/// A valid stored time is the split of its own nanoseconds.
pub proof fn lemma_stored_time_is_canonical(stored: StoredTime)
    requires
        stored.is_valid(),
    ensures
        StoredTime::of_nanos(stored.total_nanos() as nat) == stored,
{
}

/// Restoring a record and saving the stopwatch at once gives the record
/// back, but for a start time that lay ahead of the wall clock, within the
/// tolerance: that one is saved as the present. Either way the new record
/// restores to the same stopwatch.
pub proof fn lemma_save_of_restored(record: TimerRecord, now: Now)
    requires
        StopwatchView::decode(record, now) is Ok,
    ensures
        ({
            let sw = StopwatchView::decode(record, now)->Ok_0;
            &&& sw.wf()
            &&& sw.encode(now) is Ok
            &&& sw.encode(now)->Ok_0.elapsed == record.elapsed
            &&& StopwatchView::decode(sw.encode(now)->Ok_0, now) == Ok::<StopwatchView, Error>(sw)
            &&& match record.start_time {
                None => sw.encode(now)->Ok_0 == record,
                Some(stamp) => {
                    &&& stamp.total_nanos() <= now.wall ==> sw.encode(now)->Ok_0 == record
                    &&& sw.encode(now)->Ok_0.start_time matches Some(again)
                    &&& 0 <= stamp.total_nanos() - again.total_nanos() <= FUTURE_TOLERANCE
                },
            }
        }),
{
    lemma_stored_time_is_canonical(record.elapsed);
    lemma_stored_time_round_trip(record.elapsed.total_nanos() as nat);
    if let Some(stamp) = record.start_time {
        lemma_stored_time_is_canonical(stamp);
        let written = wall_time_of(moment_of(stamp.total_nanos(), now), now);
        lemma_stored_time_round_trip(written as nat);
    }
}

/// The saved form of a stopped stopwatch holds no start time, and a record
/// without a start time never restores to a running stopwatch: a stopped
/// stopwatch comes back stopped, with its banked time, whatever the clocks
/// show.
pub proof fn lemma_stopped_is_saved_stopped(sw: StopwatchView, saved_at: Now, restored_at: Now)
    requires
        sw.wf(),
        !sw.is_running(),
    ensures
        sw.encode(saved_at) is Ok,
        sw.encode(saved_at)->Ok_0.start_time is None,
        StopwatchView::decode(sw.encode(saved_at)->Ok_0, restored_at) == Ok::<
            StopwatchView,
            Error,
        >(sw),
{
    lemma_stored_time_round_trip(sw.elapsed);
}

/// A record without a start time restores, if it restores at all, to a
/// stopped stopwatch.
pub proof fn lemma_no_start_time_restores_stopped(record: TimerRecord, now: Now)
    requires
        record.start_time is None,
    ensures
        StopwatchView::decode(record, now) matches Ok(sw) ==> !sw.is_running(),
{
}

} // verus!
