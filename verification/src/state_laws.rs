//! What holds of the task list whatever is done to it.

use crate::clock::Now;
use crate::error::Error;
use crate::keys::Key;
use crate::state::count;
use crate::state::malformed;
use crate::state::restored;
use crate::state::sum_elapsed;
use crate::state::ActionView;
use crate::state::AppView;
use crate::state::CompletedTaskView;
use crate::state::InputMode;
use crate::state::TaskRecordView;
use crate::state::TaskView;
use crate::text::decimal;
use crate::text::lemma_decimal_is_digits;
use crate::text::lemma_decimal_is_injective;
use crate::text::lemma_split_at_the_last_mark;
use crate::timer::saturate;
use crate::timer_laws::lemma_elapsed_never_decreases;
use crate::timer_laws::lemma_restore_of_saved;
use crate::timer_laws::time_away;
use vstd::prelude::*;

verus! {

/// Moving the selection always leaves it on the list, wherever it was.
pub proof fn lemma_moves_end_on_the_list(app: AppView)
    ensures
        app.move_up().wf(),
        app.move_down().wf(),
        app.move_up().tasks == app.tasks,
        app.move_down().tasks == app.tasks,
{
}

/// Moving down from the last task changes nothing, and neither does moving
/// up from the first. In an empty list neither does anything.
pub proof fn lemma_moves_stop_at_the_ends(app: AppView)
    requires
        app.wf(),
    ensures
        app.selected_task + 1 >= app.tasks.len() ==> app.move_down() == app,
        app.selected_task == 0 ==> app.move_up() == app,
{
}

/// Between the ends, moving goes one task down or up.
pub proof fn lemma_moves_go_one_step(app: AppView)
    requires
        app.wf(),
    ensures
        app.selected_task + 1 < app.tasks.len() ==> app.move_down().selected_task
            == app.selected_task + 1,
        app.selected_task > 0 ==> app.move_up().selected_task == app.selected_task - 1,
{
}

/// Deleting the only task leaves an empty list with the selection at zero.
pub proof fn lemma_delete_the_only_task(app: AppView, now: Now)
    requires
        app.wf(),
        app.tasks.len() == 1,
    ensures
        app.delete_selected_task(now).0.tasks.len() == 0,
        app.delete_selected_task(now).0.selected_task == 0,
        app.delete_selected_task(now).1 == Ok::<ActionView, Error>(ActionView::Save(Seq::empty())),
{
    let next = app.delete_selected_task(now).0;
    assert(next.snapshot(now)->Ok_0 =~= Seq::empty());
}

/// Deleting takes out the selected task and no other: the tasks before it
/// stay where they are, the tasks after it move up by one.
pub proof fn lemma_delete_keeps_the_others(app: AppView, now: Now, i: int)
    requires
        app.has_selection(),
        0 <= i < app.tasks.len() - 1,
    ensures
        app.delete_selected_task(now).0.tasks.len() == app.tasks.len() - 1,
        app.delete_selected_task(now).0.tasks[i] == if i < app.selected_task {
            app.tasks[i]
        } else {
            app.tasks[i + 1]
        },
{
}

/// Completing a task leaves of the list what deleting it leaves, or fails
/// and leaves all of it.
pub proof fn lemma_complete_keeps_the_others(app: AppView, now: Now)
    ensures
        app.complete_selected_task(now).0 == app || (app.has_selection()
            && app.complete_selected_task(now).0 == app.delete_selected_task(now).0),
        app.complete_selected_task(now).1 is Err ==> app.complete_selected_task(now).0 == app,
{
}

/// A selection that is on the list stays on the list through every
/// operation, whether the operation succeeds or fails.
pub proof fn lemma_selection_stays_on_the_list(
    app: AppView,
    description: Seq<char>,
    key: Key,
    now: Now,
)
    requires
        app.wf(),
    ensures
        app.add_task(description, now).0.wf(),
        app.delete_selected_task(now).0.wf(),
        app.toggle_play_pause_selected_task(now).0.wf(),
        app.reset_selected_task(now).0.wf(),
        app.complete_selected_task(now).0.wf(),
        app.move_up().wf(),
        app.move_down().wf(),
        app.handle_key(key, now).0.wf(),
{
}

/// An operation that fails for want of a selected task, or of a
/// description, changes nothing.
pub proof fn lemma_refused_changes_nothing(app: AppView, description: Seq<char>, now: Now)
    ensures
        app.add_task(description, now).1 == Err::<ActionView, Error>(Error::EmptyDescription)
            <==> description.len() == 0,
        description.len() == 0 ==> app.add_task(description, now).0 == app,
        app.delete_selected_task(now).1 == Err::<ActionView, Error>(Error::InvariantViolation)
            <==> !app.has_selection(),
        !app.has_selection() ==> app.delete_selected_task(now).0 == app,
        !app.has_selection() ==> app.toggle_play_pause_selected_task(now).0 == app,
        !app.has_selection() ==> app.reset_selected_task(now).0 == app,
        !app.has_selection() ==> app.complete_selected_task(now) == (
            app,
            Ok::<ActionView, Error>(ActionView::Nothing),
        ),
        app.tasks.len() == 0 ==> app.toggle_play_pause_selected_task(now).1 == Ok::<
            ActionView,
            Error,
        >(ActionView::Nothing),
        app.tasks.len() == 0 ==> app.reset_selected_task(now).1 == Ok::<ActionView, Error>(
            ActionView::Nothing,
        ),
{
}

/// Whenever an operation changes the task list and succeeds, it asks for
/// the list to be saved as it stands after the change.
pub proof fn lemma_every_change_is_saved(
    app: AppView,
    description: Seq<char>,
    key: Key,
    now: Now,
)
    ensures
        asks_to_save(app, app.add_task(description, now), now),
        asks_to_save(app, app.delete_selected_task(now), now),
        asks_to_save(app, app.toggle_play_pause_selected_task(now), now),
        asks_to_save(app, app.reset_selected_task(now), now),
        asks_to_save(app, app.complete_selected_task(now), now),
        asks_to_save(app, app.handle_key(key, now), now),
{
}

/// A step from `before` that succeeds with another task list asks for that
/// list to be saved.
pub open spec fn asks_to_save(
    before: AppView,
    step: (AppView, Result<ActionView, Error>),
    now: Now,
) -> bool {
    step.1 is Ok && step.0.tasks != before.tasks ==> match step.1->Ok_0 {
        ActionView::Save(records) => Ok::<Seq<TaskRecordView>, Error>(records) == step.0.snapshot(now),
        ActionView::Archive(_, records) => Ok::<Seq<TaskRecordView>, Error>(records)
            == step.0.snapshot(now),
        _ => false,
    }
}

/// A change that cannot be written down has been made all the same, but
/// for completing a task: that is not done at all.
pub proof fn lemma_unsaved_changes_stay(app: AppView, description: Seq<char>, now: Now)
    requires
        app.has_selection(),
        description.len() > 0,
    ensures
        app.add_task(description, now).0.tasks == app.tasks.push(
            TaskView::fresh(description, now.monotonic as int),
        ),
        app.delete_selected_task(now).0.tasks == app.tasks.remove(app.selected_task as int),
        app.toggle_play_pause_selected_task(now).0.tasks == app.tasks.update(
            app.selected_task as int,
            app.tasks[app.selected_task as int].toggled(now.monotonic as int),
        ),
        app.reset_selected_task(now).0.tasks == app.tasks.update(
            app.selected_task as int,
            app.tasks[app.selected_task as int].reset(),
        ),
{
}

/// The input mode changes in three ways only. In the normal mode `a` begins
/// editing. In the editing mode escape goes back and keeps the text, and
/// enter on some text goes back, clears the text and adds one task named by
/// it; enter on no text stays in the editing mode. No other key changes the
/// mode, and the text is cleared by that enter alone.
pub proof fn lemma_input_mode_steps(app: AppView, key: Key, now: Now)
    ensures
        ({
            let next = app.handle_key(key, now).0;
            let begins = app.input_mode == InputMode::Normal && key == Key::Char('a');
            let cancels = app.input_mode == InputMode::Editing && key == Key::Esc;
            let submits = app.input_mode == InputMode::Editing && key == Key::Enter
                && app.input.len() > 0;
            &&& begins ==> next.input_mode == InputMode::Editing && next.input == app.input
            &&& cancels ==> next.input_mode == InputMode::Normal && next.input == app.input
            &&& submits ==> {
                &&& next.input_mode == InputMode::Normal
                &&& next.input.len() == 0
                &&& next.tasks == app.tasks.push(TaskView::fresh(app.input, now.monotonic as int))
            }
            &&& !begins && !cancels && !submits ==> next.input_mode == app.input_mode
            &&& !submits && next.input.len() == 0 ==> app.input.len() <= 1
            &&& app.input_mode == InputMode::Normal ==> next.input == app.input
        }),
{
}

/// The sum of the readings never goes down as the clock goes on.
pub proof fn lemma_sum_never_decreases(tasks: Seq<TaskView>, earlier: int, later: int)
    requires
        earlier <= later,
    ensures
        sum_elapsed(tasks, earlier) <= sum_elapsed(tasks, later),
    decreases tasks.len(),
{
    if tasks.len() > 0 {
        lemma_sum_never_decreases(tasks.drop_last(), earlier, later);
        lemma_elapsed_never_decreases(tasks.last().timer, earlier, later);
    }
}

/// The total of all stopwatches never goes down as the clock goes on, and
/// stands still while every stopwatch is stopped.
pub proof fn lemma_active_elapsed_never_decreases(app: AppView, earlier: int, later: int)
    requires
        earlier <= later,
    ensures
        app.active_elapsed(earlier) <= app.active_elapsed(later),
        (forall|i: int| 0 <= i < app.tasks.len() ==> !(#[trigger] app.tasks[i]).timer.is_running())
            ==> app.active_elapsed(earlier) == app.active_elapsed(later),
{
    lemma_sum_never_decreases(app.tasks, earlier, later);
    if forall|i: int| 0 <= i < app.tasks.len() ==> !(#[trigger] app.tasks[i]).timer.is_running() {
        lemma_sum_of_stopped_stands_still(app.tasks, earlier, later);
    }
}

/// The sum of the readings of stopped stopwatches is the same at all times.
pub proof fn lemma_sum_of_stopped_stands_still(tasks: Seq<TaskView>, now: int, then: int)
    requires
        forall|i: int| 0 <= i < tasks.len() ==> !(#[trigger] tasks[i]).timer.is_running(),
    ensures
        sum_elapsed(tasks, now) == sum_elapsed(tasks, then),
    decreases tasks.len(),
{
    if tasks.len() > 0 {
        lemma_sum_of_stopped_stands_still(tasks.drop_last(), now, then);
    }
}

/// The total of a list is the total of its tasks: with one task it is that
/// task's reading, and a task more adds its reading, up to saturation.
pub proof fn lemma_active_elapsed_adds_up(app: AppView, task: TaskView, now: int)
    ensures
        AppView::empty().active_elapsed(now) == 0,
        (AppView { tasks: app.tasks.push(task), ..app }).active_elapsed(now) == saturate(
            (app.active_elapsed(now) + task.timer.elapsed_at(now)) as int,
        ),
{
    assert(app.tasks.push(task).drop_last() =~= app.tasks);
}

/// Restoring leaves out the malformed records and no others: the positions
/// handed back are those of the records that do not decode, the restored
/// tasks are as many as the records that are left, and where no record is
/// malformed each task is what its record decodes to.
pub proof fn lemma_restored_leaves_out_the_malformed(records: Seq<TaskRecordView>, now: Now)
    ensures
        restored(records, now).len() + malformed(records, now).len() == records.len(),
        forall|k: int|
            0 <= k < records.len() ==> (malformed(records, now).contains(k) <==> (
            #[trigger] TaskView::decode(records[k], now)) is Err),
        forall|j: int|
            0 <= j < malformed(records, now).len() ==> 0 <= #[trigger] malformed(records, now)[j]
                < records.len(),
        malformed(records, now).len() == 0 ==> forall|i: int|
            0 <= i < records.len() ==> #[trigger] TaskView::decode(records[i], now) == Ok::<
                TaskView,
                Error,
            >(restored(records, now)[i]),
    decreases records.len(),
{
    if records.len() > 0 {
        let before = records.drop_last();
        let last = records.len() - 1;
        lemma_restored_leaves_out_the_malformed(before, now);
        assert forall|k: int| 0 <= k < records.len() implies (malformed(records, now).contains(k)
            <==> (#[trigger] TaskView::decode(records[k], now)) is Err) by {
            if k < last {
                assert(before[k] == records[k]);
                if malformed(before, now).contains(k) {
                    let j = choose|j: int|
                        0 <= j < malformed(before, now).len() && malformed(before, now)[j] == k;
                    assert(malformed(records, now)[j] == k);
                }
            } else {
                if TaskView::decode(records[k], now) is Err {
                    assert(malformed(records, now)[malformed(before, now).len() as int] == k);
                }
            }
        }
        if malformed(records, now).len() == 0 {
            assert forall|i: int| 0 <= i < records.len() implies #[trigger] TaskView::decode(
                records[i],
                now,
            ) == Ok::<TaskView, Error>(restored(records, now)[i]) by {
                if i < last {
                    assert(before[i] == records[i]);
                }
            }
        }
    }
}

/// Saving the task list and restoring it later by the wall clock, in
/// another process, gives back every task under its name, running or
/// stopped as it was, and reading what it read plus the time it was away.
/// Records that the restoring clock finds malformed are set aside; the
/// statement is of the other case.
pub proof fn lemma_load_of_saved(app: AppView, saved_at: Now, restored_at: Now)
    requires
        forall|i: int| 0 <= i < app.tasks.len() ==> (#[trigger] app.tasks[i]).timer.wf(),
        saved_at.wall <= restored_at.wall,
        app.snapshot(saved_at) is Ok,
        malformed(app.snapshot(saved_at)->Ok_0, restored_at).len() == 0,
    ensures
        ({
            let back = restored(app.snapshot(saved_at)->Ok_0, restored_at);
            &&& back.len() == app.tasks.len()
            &&& forall|i: int|
                #![trigger back[i]]
                0 <= i < back.len() ==> {
                    &&& back[i].description == app.tasks[i].description
                    &&& back[i].timer.is_running() == app.tasks[i].timer.is_running()
                    &&& back[i].timer.elapsed == app.tasks[i].timer.elapsed
                    &&& back[i].timer.elapsed_at(restored_at.monotonic as int) == saturate(
                        app.tasks[i].timer.elapsed_at(saved_at.monotonic as int) + time_away(
                            app.tasks[i].timer,
                            saved_at,
                            restored_at,
                        ),
                    )
                }
        }),
{
    let records = app.snapshot(saved_at)->Ok_0;
    let back = restored(records, restored_at);
    lemma_restored_leaves_out_the_malformed(records, restored_at);
    assert forall|i: int| #![trigger back[i]] 0 <= i < back.len() implies {
        &&& back[i].description == app.tasks[i].description
        &&& back[i].timer.is_running() == app.tasks[i].timer.is_running()
        &&& back[i].timer.elapsed == app.tasks[i].timer.elapsed
        &&& back[i].timer.elapsed_at(restored_at.monotonic as int) == saturate(
            app.tasks[i].timer.elapsed_at(saved_at.monotonic as int) + time_away(
                app.tasks[i].timer,
                saved_at,
                restored_at,
            ),
        )
    } by {
        assert(TaskView::decode(records[i], restored_at) == Ok::<TaskView, Error>(back[i]));
        lemma_restore_of_saved(app.tasks[i].timer, saved_at, restored_at);
    }
}

/// The archive keeps two finished tasks under one key only if they have
/// the same name and were completed at the same time: no task there is
/// written over by another.
pub proof fn lemma_keys_do_not_collide(a: CompletedTaskView, b: CompletedTaskView)
    requires
        a.key() == b.key(),
    ensures
        a.description == b.description,
        count(a.completed_at.secs) == count(b.completed_at.secs),
        count(a.completed_at.nanos) == count(b.completed_at.nanos),
{
    reveal_strlit("-");
    assert("-"@ =~= seq!['-']);
    let a_secs = decimal(count(a.completed_at.secs));
    let a_nanos = decimal(count(a.completed_at.nanos));
    let b_secs = decimal(count(b.completed_at.secs));
    let b_nanos = decimal(count(b.completed_at.nanos));
    lemma_decimal_is_digits(count(a.completed_at.secs));
    lemma_decimal_is_digits(count(a.completed_at.nanos));
    lemma_decimal_is_digits(count(b.completed_at.secs));
    lemma_decimal_is_digits(count(b.completed_at.nanos));
    lemma_split_at_the_last_mark(
        a.description + seq!['-'] + a_secs,
        a_nanos,
        b.description + seq!['-'] + b_secs,
        b_nanos,
        '-',
    );
    lemma_split_at_the_last_mark(a.description, a_secs, b.description, b_secs, '-');
    lemma_decimal_is_injective(count(a.completed_at.secs), count(b.completed_at.secs));
    lemma_decimal_is_injective(count(a.completed_at.nanos), count(b.completed_at.nanos));
}

} // verus!
