//! The task list: what the user sees and changes. Every operation that
//! changes what is worth keeping hands back the records to write in place of
//! the saved state, taken after the change.

use crate::approx_instant::StoredTime;
use crate::clock::Clock;
use crate::clock::Now;
use crate::error::Error;
use crate::text::decimal;
use crate::text::push_decimal;
use crate::timer::saturate;
use crate::timer::Stopwatch;
use crate::timer::StopwatchView;
use crate::timer::TimerRecord;
use vstd::prelude::*;

verus! {

/// Whether keys are commands or text for a new task.
#[derive(Clone, Copy, Debug, PartialEq, Eq, Structural)]
pub enum InputMode {
    Normal,
    Editing,
}

/// A named task and the stopwatch that times it.
#[derive(Clone, Debug, PartialEq, Eq)]
pub struct Task {
    pub description: String,
    pub timer: Stopwatch,
}

/// What a task is.
pub struct TaskView {
    pub description: Seq<char>,
    pub timer: StopwatchView,
}

impl View for Task {
    type V = TaskView;

    open spec fn view(&self) -> TaskView {
        TaskView { description: self.description@, timer: self.timer@ }
    }
}

/// A task as it stands in the saved state.
#[derive(Clone, Debug, PartialEq, Eq)]
pub struct TaskRecord {
    pub description: String,
    pub timer: TimerRecord,
}

/// What a saved task is.
pub struct TaskRecordView {
    pub description: Seq<char>,
    pub timer: TimerRecord,
}

impl View for TaskRecord {
    type V = TaskRecordView;

    open spec fn view(&self) -> TaskRecordView {
        TaskRecordView { description: self.description@, timer: self.timer }
    }
}

/// A finished task as it goes to the archive: its name, all the time
/// counted for it, and the wall-clock time at which it was completed. Name
/// and completion time together tell two finished tasks of one name apart.
#[derive(Clone, Debug, PartialEq, Eq)]
pub struct CompletedTask {
    pub description: String,
    pub elapsed: StoredTime,
    pub completed_at: StoredTime,
}

/// What a finished task is.
pub struct CompletedTaskView {
    pub description: Seq<char>,
    pub elapsed: StoredTime,
    pub completed_at: StoredTime,
}

impl View for CompletedTask {
    type V = CompletedTaskView;

    open spec fn view(&self) -> CompletedTaskView {
        CompletedTaskView {
            description: self.description@,
            elapsed: self.elapsed,
            completed_at: self.completed_at,
        }
    }
}

/// A count that is taken for zero where it is negative.
pub open spec fn count(n: i64) -> nat {
    if n < 0 {
        0
    } else {
        n as nat
    }
}

impl CompletedTaskView {
    /// The name under which the archive keeps the task: its description and
    /// the time of its completion, in seconds and nanoseconds.
    pub open spec fn key(self) -> Seq<char> {
        self.description + "-"@ + decimal(count(self.completed_at.secs)) + "-"@ + decimal(
            count(self.completed_at.nanos),
        )
    }
}

impl CompletedTask {
    /// The name under which the archive keeps the task. Two finished tasks
    /// have one key only if they have one name and one time of completion.
    pub fn key(&self) -> (key: String)
        ensures
            key@ == self@.key(),
    {
        let mut key = self.description.clone();
        key.append("-");
        push_decimal(&mut key, if self.completed_at.secs < 0 {
            0
        } else {
            self.completed_at.secs as u64
        });
        key.append("-");
        push_decimal(&mut key, if self.completed_at.nanos < 0 {
            0
        } else {
            self.completed_at.nanos as u64
        });
        key
    }
}

/// What the caller has to do once an operation has returned.
#[derive(Clone, Debug, PartialEq, Eq)]
pub enum Action {
    /// Nothing changed that is worth keeping.
    Nothing,
    /// Write these records in place of the saved state.
    Save(Vec<TaskRecord>),
    /// Put the finished task into the archive, then write the records in
    /// place of the saved state.
    Archive(CompletedTask, Vec<TaskRecord>),
    /// Show the key bindings until a key dismisses them.
    ShowHelp,
    /// Leave the program.
    Quit,
}

/// What an action is.
pub enum ActionView {
    Nothing,
    Save(Seq<TaskRecordView>),
    Archive(CompletedTaskView, Seq<TaskRecordView>),
    ShowHelp,
    Quit,
}

/// The records of a list, each by its view.
pub open spec fn record_views(records: Seq<TaskRecord>) -> Seq<TaskRecordView> {
    records.map_values(|record: TaskRecord| record@)
}

/// The tasks of a list, each by its view.
pub open spec fn task_views(tasks: Seq<Task>) -> Seq<TaskView> {
    tasks.map_values(|task: Task| task@)
}

impl View for Action {
    type V = ActionView;

    open spec fn view(&self) -> ActionView {
        match *self {
            Action::Nothing => ActionView::Nothing,
            Action::Save(records) => ActionView::Save(record_views(records@)),
            Action::Archive(done, records) => ActionView::Archive(done@, record_views(records@)),
            Action::ShowHelp => ActionView::ShowHelp,
            Action::Quit => ActionView::Quit,
        }
    }
}

/// What an operation returned, by its view.
pub open spec fn outcome(out: Result<Action, Error>) -> Result<ActionView, Error> {
    match out {
        Ok(action) => Ok(action@),
        Err(e) => Err(e),
    }
}

/// What `save` returned, by its view.
pub open spec fn saved(out: Result<Vec<TaskRecord>, Error>) -> Result<Seq<TaskRecordView>, Error> {
    match out {
        Ok(records) => Ok(record_views(records@)),
        Err(e) => Err(e),
    }
}

impl TaskView {
    /// A new task, its stopwatch running from `now`.
    pub open spec fn fresh(description: Seq<char>, now: int) -> TaskView {
        TaskView { description, timer: StopwatchView::zero().start(now) }
    }

    /// Paused if it was running, running if it was not.
    pub open spec fn toggled(self, now: int) -> TaskView {
        TaskView {
            description: self.description,
            timer: if self.timer.is_running() {
                self.timer.stop(now)
            } else {
                self.timer.start(now)
            },
        }
    }

    /// Stopped, with nothing counted.
    pub open spec fn reset(self) -> TaskView {
        TaskView { description: self.description, timer: self.timer.reset() }
    }

    /// The record that saves the task.
    pub open spec fn encode(self, now: Now) -> Result<TaskRecordView, Error> {
        match self.timer.encode(now) {
            Ok(timer) => Ok(TaskRecordView { description: self.description, timer }),
            Err(e) => Err(e),
        }
    }

    /// The task that a record stands for.
    pub open spec fn decode(record: TaskRecordView, now: Now) -> Result<TaskView, Error> {
        match StopwatchView::decode(record.timer, now) {
            Ok(timer) => Ok(TaskView { description: record.description, timer }),
            Err(e) => Err(e),
        }
    }

    /// The archive record of the task, completed at `now`.
    pub open spec fn completed(self, now: Now) -> CompletedTaskView {
        CompletedTaskView {
            description: self.description,
            elapsed: StoredTime::of_nanos(self.timer.elapsed_at(now.monotonic as int)),
            completed_at: StoredTime::of_nanos(now.wall as nat),
        }
    }
}

/// The sum of what the stopwatches of `tasks` read at `now`, in nanoseconds.
pub open spec fn sum_elapsed(tasks: Seq<TaskView>, now: int) -> nat
    decreases tasks.len(),
{
    if tasks.len() == 0 {
        0
    } else {
        sum_elapsed(tasks.drop_last(), now) + tasks.last().timer.elapsed_at(now)
    }
}

/// Where the selection stands in a list of `len` tasks: on the last task
/// where it pointed past it, at zero in an empty list.
pub open spec fn clamped(selected: nat, len: nat) -> nat {
    if len == 0 {
        0
    } else if selected >= len {
        (len - 1) as nat
    } else {
        selected
    }
}

/// The tasks that saved records stand for, in their order. A record whose
/// stopwatch is malformed is left out.
pub open spec fn restored(records: Seq<TaskRecordView>, now: Now) -> Seq<TaskView>
    decreases records.len(),
{
    if records.len() == 0 {
        Seq::empty()
    } else {
        let before = restored(records.drop_last(), now);
        match TaskView::decode(records.last(), now) {
            Ok(task) => before.push(task),
            Err(_) => before,
        }
    }
}

/// The positions of the records that `restored` leaves out, in rising
/// order.
pub open spec fn malformed(records: Seq<TaskRecordView>, now: Now) -> Seq<int>
    decreases records.len(),
{
    if records.len() == 0 {
        Seq::empty()
    } else {
        let before = malformed(records.drop_last(), now);
        match TaskView::decode(records.last(), now) {
            Ok(_) => before,
            Err(_) => before.push(records.len() - 1),
        }
    }
}

/// What the application state is.
pub struct AppView {
    pub input: Seq<char>,
    pub input_mode: InputMode,
    pub tasks: Seq<TaskView>,
    pub selected_task: nat,
}

impl AppView {
    /// The selection points at a task, or at zero in an empty list.
    pub open spec fn wf(self) -> bool {
        self.selected_task == 0 || self.selected_task < self.tasks.len()
    }

    /// The selection points at a task.
    pub open spec fn has_selection(self) -> bool {
        self.selected_task < self.tasks.len()
    }

    /// Nothing typed, no tasks, taking commands.
    pub open spec fn empty() -> AppView {
        AppView {
            input: Seq::empty(),
            input_mode: InputMode::Normal,
            tasks: Seq::empty(),
            selected_task: 0,
        }
    }

    /// Every stopwatch can be written down.
    pub open spec fn can_save(self, now: Now) -> bool {
        forall|i: int| 0 <= i < self.tasks.len() ==> (#[trigger] self.tasks[i]).encode(now) is Ok
    }

    /// The records that save the task list, in the order of the tasks.
    pub open spec fn snapshot(self, now: Now) -> Result<Seq<TaskRecordView>, Error> {
        if self.can_save(now) {
            Ok(Seq::new(self.tasks.len(), |i: int| self.tasks[i].encode(now)->Ok_0))
        } else {
            Err(Error::PersistenceFailure)
        }
    }

    /// The request to save the task list as it stands.
    pub open spec fn persist(self, now: Now) -> Result<ActionView, Error> {
        match self.snapshot(now) {
            Ok(records) => Ok(ActionView::Save(records)),
            Err(e) => Err(e),
        }
    }

    /// One task up, to the first task at most.
    pub open spec fn move_up(self) -> AppView {
        let above = if self.selected_task == 0 {
            0
        } else {
            (self.selected_task - 1) as nat
        };
        AppView { selected_task: clamped(above, self.tasks.len()), ..self }
    }

    /// One task down, to the last task at most.
    pub open spec fn move_down(self) -> AppView {
        AppView { selected_task: clamped(self.selected_task + 1, self.tasks.len()), ..self }
    }

    /// What all stopwatches together read at `now`, saturating.
    pub open spec fn active_elapsed(self, now: int) -> nat {
        saturate(sum_elapsed(self.tasks, now) as int)
    }

    /// The list with the selected task taken out, the selection held inside
    /// what is left.
    pub open spec fn without_selected(self) -> AppView {
        AppView {
            tasks: self.tasks.remove(self.selected_task as int),
            selected_task: clamped(self.selected_task, (self.tasks.len() - 1) as nat),
            ..self
        }
    }

    /// The list with the selected task replaced.
    pub open spec fn with_selected(self, task: TaskView) -> AppView {
        AppView { tasks: self.tasks.update(self.selected_task as int, task), ..self }
    }

    /// A new task at the end of the list, its stopwatch running; the input
    /// mode goes back to normal. An empty description is refused.
    pub open spec fn add_task(self, description: Seq<char>, now: Now) -> (
        AppView,
        Result<ActionView, Error>,
    ) {
        if description.len() == 0 {
            (self, Err(Error::EmptyDescription))
        } else {
            let next = AppView {
                tasks: self.tasks.push(TaskView::fresh(description, now.monotonic as int)),
                input_mode: InputMode::Normal,
                ..self
            };
            (next, next.persist(now))
        }
    }

    /// The selected task leaves the list. Without a selected task this is an
    /// error.
    pub open spec fn delete_selected_task(self, now: Now) -> (AppView, Result<ActionView, Error>) {
        if !self.has_selection() {
            (self, Err(Error::InvariantViolation))
        } else {
            let next = self.without_selected();
            (next, next.persist(now))
        }
    }

    /// The stopwatch of the selected task stops if it runs, and starts if it
    /// does not. In an empty list nothing happens.
    pub open spec fn toggle_play_pause_selected_task(self, now: Now) -> (
        AppView,
        Result<ActionView, Error>,
    ) {
        if self.tasks.len() == 0 {
            (self, Ok(ActionView::Nothing))
        } else if !self.has_selection() {
            (self, Err(Error::InvariantViolation))
        } else {
            let next = self.with_selected(
                self.tasks[self.selected_task as int].toggled(now.monotonic as int),
            );
            (next, next.persist(now))
        }
    }

    /// The stopwatch of the selected task goes back to zero, stopped. In an
    /// empty list nothing happens.
    pub open spec fn reset_selected_task(self, now: Now) -> (AppView, Result<ActionView, Error>) {
        if self.tasks.len() == 0 {
            (self, Ok(ActionView::Nothing))
        } else if !self.has_selection() {
            (self, Err(Error::InvariantViolation))
        } else {
            let next = self.with_selected(self.tasks[self.selected_task as int].reset());
            (next, next.persist(now))
        }
    }

    /// The selected task leaves the list for the archive. Without a selected
    /// task nothing happens. Where what is left cannot be written down, the
    /// task stays.
    pub open spec fn complete_selected_task(self, now: Now) -> (
        AppView,
        Result<ActionView, Error>,
    ) {
        if !self.has_selection() {
            (self, Ok(ActionView::Nothing))
        } else {
            let next = self.without_selected();
            match next.snapshot(now) {
                Ok(records) => (
                    next,
                    Ok(
                        ActionView::Archive(
                            self.tasks[self.selected_task as int].completed(now),
                            records,
                        ),
                    ),
                ),
                Err(e) => (self, Err(e)),
            }
        }
    }
}

impl Task {
    /// A new task whose stopwatch runs from the monotonic moment `now`.
    pub fn start_new_at(description: &str, now: i64) -> (task: Task)
        ensures
            task@ == TaskView::fresh(description@, now as int),
    {
        Task { description: description.to_owned(), timer: Stopwatch::start_new_at(now) }
    }

    /// The record that saves the task.
    pub fn encode_at(&self, now: Now) -> (out: Result<TaskRecord, Error>)
        ensures
            match self@.encode(now) {
                Ok(record) => out is Ok && out->Ok_0@ == record,
                Err(e) => out == Err::<TaskRecord, Error>(e),
            },
    {
        match self.timer.encode_at(now) {
            Ok(timer) => Ok(TaskRecord { description: self.description.clone(), timer }),
            Err(e) => Err(e),
        }
    }

    /// The task that `record` stands for, or `MalformedTimer`.
    pub fn decode_at(record: &TaskRecord, now: Now) -> (out: Result<Task, Error>)
        ensures
            match TaskView::decode(record@, now) {
                Ok(task) => out is Ok && out->Ok_0@ == task,
                Err(e) => out == Err::<Task, Error>(e),
            },
            out is Err ==> out == Err::<Task, Error>(Error::MalformedTimer),
    {
        match Stopwatch::decode_at(&record.timer, now) {
            Ok(timer) => Ok(Task { description: record.description.clone(), timer }),
            Err(e) => Err(e),
        }
    }

    /// Stops the stopwatch for good and gives the record for the archive.
    pub fn complete_at(&mut self, now: Now) -> (done: CompletedTask)
        ensures
            done@ == old(self)@.completed(now),
            final(self)@ == (TaskView {
                description: old(self)@.description,
                timer: old(self)@.timer.stop(now.monotonic as int),
            }),
    {
        self.timer.stop_at(now.monotonic);
        proof {
            crate::timer_laws::lemma_calls_keep_the_reading(old(self)@.timer, now.monotonic as int);
        }
        CompletedTask {
            description: self.description.clone(),
            elapsed: StoredTime::from_nanos(self.timer.elapsed_at(now.monotonic)),
            completed_at: StoredTime::from_nanos(now.wall),
        }
    }

    /// Reads the clock and does `complete_at` that reading.
    pub fn complete(&mut self, clock: &mut Clock) -> (done: CompletedTask)
        ensures
            old(clock)@.monotonic <= final(clock)@.monotonic,
            done@ == old(self)@.completed(final(clock)@),
            final(self)@ == (TaskView {
                description: old(self)@.description,
                timer: old(self)@.timer.stop(final(clock)@.monotonic as int),
            }),
    {
        self.complete_at(clock.now())
    }
}

/// The state of the application: the task list, the selection, and the text
/// typed for a new task.
#[derive(Clone, Debug, PartialEq, Eq)]
pub struct App {
    /// Current value of the input box
    pub input: String,
    /// Current input mode
    pub input_mode: InputMode,
    /// The tasks, in the order in which they are shown
    pub tasks: Vec<Task>,
    /// Index of the selected task
    pub selected_task: usize,
}

impl View for App {
    type V = AppView;

    open spec fn view(&self) -> AppView {
        AppView {
            input: self.input@,
            input_mode: self.input_mode,
            tasks: task_views(self.tasks@),
            selected_task: self.selected_task as nat,
        }
    }
}

impl Default for App {
    /// No tasks, nothing typed, taking commands.
    fn default() -> (app: App)
        ensures
            app@ == AppView::empty(),
    {
        let app = App {
            input: String::new(),
            input_mode: InputMode::Normal,
            tasks: Vec::new(),
            selected_task: 0,
        };
        assert(app@.tasks =~= Seq::empty());
        app
    }
}

impl App {
    /// The state at the start of the program: the tasks that the saved
    /// records stand for, as clocks reading `now` see them, with the first
    /// of them selected. A malformed record costs only its own task; the
    /// positions of such records are handed back beside the state.
    pub fn load_at(records: &Vec<TaskRecord>, now: Now) -> (loaded: (App, Vec<usize>))
        ensures
            loaded.0@ == (AppView {
                tasks: restored(record_views(records@), now),
                ..AppView::empty()
            }),
            loaded.1@.map_values(|i: usize| i as int) == malformed(record_views(records@), now),
    {
        let mut tasks: Vec<Task> = Vec::new();
        let mut skipped: Vec<usize> = Vec::new();
        let mut i: usize = 0;
        while i < records.len()
            invariant
                i <= records.len(),
                task_views(tasks@) == restored(record_views(records@).take(i as int), now),
                skipped@.map_values(|i: usize| i as int) == malformed(
                    record_views(records@).take(i as int),
                    now,
                ),
            decreases records.len() - i,
        {
            proof {
                let seen = record_views(records@).take(i + 1);
                assert(seen.drop_last() =~= record_views(records@).take(i as int));
            }
            match Task::decode_at(&records[i], now) {
                Ok(task) => tasks.push(task),
                Err(_) => skipped.push(i),
            }
            i += 1;
        }
        proof {
            assert(record_views(records@).take(i as int) =~= record_views(records@));
        }
        (App { input: String::new(), input_mode: InputMode::Normal, tasks, selected_task: 0 }, skipped)
    }

    /// Moves the selection one task up. It ends on a task of the list
    /// whatever it was before.
    pub fn move_up(&mut self)
        ensures
            final(self)@ == old(self)@.move_up(),
    {
        if self.selected_task > 0 {
            self.selected_task -= 1;
        }
        self.clamp_selection();
    }

    /// Moves the selection one task down. It ends on a task of the list
    /// whatever it was before.
    pub fn move_down(&mut self)
        ensures
            final(self)@ == old(self)@.move_down(),
    {
        if self.selected_task < self.tasks.len() {
            self.selected_task += 1;
        }
        self.clamp_selection();
    }

    /// Brings the selection back onto the list.
    fn clamp_selection(&mut self)
        ensures
            final(self).selected_task == clamped(
                old(self).selected_task as nat,
                old(self).tasks@.len(),
            ),
            final(self).tasks == old(self).tasks,
            final(self).input == old(self).input,
            final(self).input_mode == old(self).input_mode,
    {
        let len = self.tasks.len();
        if len == 0 {
            self.selected_task = 0;
        } else if self.selected_task >= len {
            self.selected_task = len - 1;
        }
    }

    /// The records that save the task list as clocks reading `now` see it.
    /// It fails where a stopwatch cannot be written down.
    pub fn save_at(&self, now: Now) -> (out: Result<Vec<TaskRecord>, Error>)
        ensures
            saved(out) == self@.snapshot(now),
    {
        let mut records: Vec<TaskRecord> = Vec::new();
        let mut i: usize = 0;
        while i < self.tasks.len()
            invariant
                i <= self.tasks.len(),
                records.len() == i,
                forall|j: int|
                    #![trigger records[j]]
                    #![trigger self@.tasks[j]]
                    0 <= j < i ==> self@.tasks[j].encode(now) == Ok::<TaskRecordView, Error>(
                        records[j]@,
                    ),
            decreases self.tasks.len() - i,
        {
            match self.tasks[i].encode_at(now) {
                Ok(record) => {
                    records.push(record);
                },
                Err(e) => {
                    assert(self@.tasks[i as int].encode(now) is Err);
                    return Err(e);
                },
            }
            i += 1;
        }
        proof {
            assert(record_views(records@) =~= self@.snapshot(now)->Ok_0);
        }
        Ok(records)
    }

    /// The request to save the task list as it stands.
    fn persist_at(&self, now: Now) -> (out: Result<Action, Error>)
        ensures
            outcome(out) == self@.persist(now),
    {
        match self.save_at(now) {
            Ok(records) => Ok(Action::Save(records)),
            Err(e) => Err(e),
        }
    }

    /// Adds a task named `description` at the end of the list, its stopwatch
    /// running from `now`, and leaves the editing mode. An empty description
    /// is refused and nothing changes. The new list is to be saved; where it
    /// cannot be written down the task has been added all the same.
    pub fn add_task_at(&mut self, description: &str, now: Now) -> (out: Result<Action, Error>)
        ensures
            (final(self)@, outcome(out)) == old(self)@.add_task(description@, now),
    {
        if description.is_empty() {
            return Err(Error::EmptyDescription);
        }
        self.tasks.push(Task::start_new_at(description, now.monotonic));
        self.input_mode = InputMode::Normal;
        proof {
            assert(self@.tasks =~= old(self)@.tasks.push(
                TaskView::fresh(description@, now.monotonic as int),
            ));
        }
        self.persist_at(now)
    }

    /// Takes the selected task out of the list; a selection that then points
    /// past the end moves to the last task. Without a selected task it
    /// fails with `InvariantViolation` and nothing changes.
    pub fn delete_selected_task_at(&mut self, now: Now) -> (out: Result<Action, Error>)
        ensures
            (final(self)@, outcome(out)) == old(self)@.delete_selected_task(now),
    {
        if self.selected_task >= self.tasks.len() {
            return Err(Error::InvariantViolation);
        }
        self.tasks.remove(self.selected_task);
        proof {
            assert(task_views(self.tasks@) =~= old(self)@.tasks.remove(self.selected_task as int));
        }
        self.clamp_selection();
        self.persist_at(now)
    }

    /// Pauses the selected task if its stopwatch runs, and resumes it if it
    /// does not. In an empty list nothing happens; a selection past the end
    /// of a list that is not empty is an `InvariantViolation`.
    pub fn toggle_play_pause_selected_task_at(&mut self, now: Now) -> (out: Result<Action, Error>)
        ensures
            (final(self)@, outcome(out)) == old(self)@.toggle_play_pause_selected_task(now),
    {
        if self.tasks.len() == 0 {
            return Ok(Action::Nothing);
        }
        if self.selected_task >= self.tasks.len() {
            return Err(Error::InvariantViolation);
        }
        let selected = self.selected_task;
        if self.tasks[selected].timer.is_running() {
            self.tasks[selected].timer.stop_at(now.monotonic);
        } else {
            self.tasks[selected].timer.start_at(now.monotonic);
        }
        proof {
            assert(self@.tasks =~= old(self)@.tasks.update(
                selected as int,
                old(self)@.tasks[selected as int].toggled(now.monotonic as int),
            ));
        }
        self.persist_at(now)
    }

    /// Brings the stopwatch of the selected task back to zero, stopped. In
    /// an empty list nothing happens; a selection past the end of a list
    /// that is not empty is an `InvariantViolation`.
    pub fn reset_selected_task_at(&mut self, now: Now) -> (out: Result<Action, Error>)
        ensures
            (final(self)@, outcome(out)) == old(self)@.reset_selected_task(now),
    {
        if self.tasks.len() == 0 {
            return Ok(Action::Nothing);
        }
        if self.selected_task >= self.tasks.len() {
            return Err(Error::InvariantViolation);
        }
        let selected = self.selected_task;
        self.tasks[selected].timer.reset();
        proof {
            assert(self@.tasks =~= old(self)@.tasks.update(
                selected as int,
                old(self)@.tasks[selected as int].reset(),
            ));
        }
        self.persist_at(now)
    }

    /// Moves the selected task from the list to the archive: the task is
    /// handed back as a finished one, with all the time counted for it up to
    /// `now`, together with the list that is left. Without a selected task
    /// nothing happens. Where what is left cannot be written down it fails
    /// and the task stays in the list.
    pub fn complete_selected_task_at(&mut self, now: Now) -> (out: Result<Action, Error>)
        ensures
            (final(self)@, outcome(out)) == old(self)@.complete_selected_task(now),
    {
        if self.selected_task >= self.tasks.len() {
            return Ok(Action::Nothing);
        }
        let selected = self.selected_task;
        let mut task = self.tasks.remove(selected);
        proof {
            assert(task_views(self.tasks@) =~= old(self)@.tasks.remove(selected as int));
        }
        self.clamp_selection();
        match self.save_at(now) {
            Ok(records) => Ok(Action::Archive(task.complete_at(now), records)),
            Err(e) => {
                self.tasks.insert(selected, task);
                self.selected_task = selected;
                proof {
                    assert(self.tasks@ =~= old(self).tasks@);
                }
                Err(e)
            },
        }
    }

    /// Reads the clock and does `load_at` that reading.
    pub fn load(records: &Vec<TaskRecord>, clock: &mut Clock) -> (loaded: (App, Vec<usize>))
        ensures
            old(clock)@.monotonic <= final(clock)@.monotonic,
            loaded.0@ == (AppView {
                tasks: restored(record_views(records@), final(clock)@),
                ..AppView::empty()
            }),
            loaded.1@.map_values(|i: usize| i as int) == malformed(
                record_views(records@),
                final(clock)@,
            ),
    {
        App::load_at(records, clock.now())
    }

    /// Reads the clock and does `save_at` that reading.
    pub fn save(&self, clock: &mut Clock) -> (out: Result<Vec<TaskRecord>, Error>)
        ensures
            old(clock)@.monotonic <= final(clock)@.monotonic,
            saved(out) == self@.snapshot(final(clock)@),
    {
        self.save_at(clock.now())
    }

    /// Reads the clock and does `add_task_at` that reading.
    pub fn add_task(&mut self, description: &str, clock: &mut Clock) -> (out: Result<
        Action,
        Error,
    >)
        ensures
            old(clock)@.monotonic <= final(clock)@.monotonic,
            (final(self)@, outcome(out)) == old(self)@.add_task(description@, final(clock)@),
    {
        self.add_task_at(description, clock.now())
    }

    /// Reads the clock and does `delete_selected_task_at` that reading.
    pub fn delete_selected_task(&mut self, clock: &mut Clock) -> (out: Result<Action, Error>)
        ensures
            old(clock)@.monotonic <= final(clock)@.monotonic,
            (final(self)@, outcome(out)) == old(self)@.delete_selected_task(final(clock)@),
    {
        self.delete_selected_task_at(clock.now())
    }

    /// Reads the clock and does `toggle_play_pause_selected_task_at` that
    /// reading.
    pub fn toggle_play_pause_selected_task(&mut self, clock: &mut Clock) -> (out: Result<
        Action,
        Error,
    >)
        ensures
            old(clock)@.monotonic <= final(clock)@.monotonic,
            (final(self)@, outcome(out)) == old(self)@.toggle_play_pause_selected_task(
                final(clock)@,
            ),
    {
        self.toggle_play_pause_selected_task_at(clock.now())
    }

    /// Reads the clock and does `reset_selected_task_at` that reading.
    pub fn reset_selected_task(&mut self, clock: &mut Clock) -> (out: Result<Action, Error>)
        ensures
            old(clock)@.monotonic <= final(clock)@.monotonic,
            (final(self)@, outcome(out)) == old(self)@.reset_selected_task(final(clock)@),
    {
        self.reset_selected_task_at(clock.now())
    }

    /// Reads the clock and does `complete_selected_task_at` that reading.
    pub fn complete_selected_task(&mut self, clock: &mut Clock) -> (out: Result<Action, Error>)
        ensures
            old(clock)@.monotonic <= final(clock)@.monotonic,
            (final(self)@, outcome(out)) == old(self)@.complete_selected_task(final(clock)@),
    {
        self.complete_selected_task_at(clock.now())
    }

    /// Reads the clock and gives `active_elapsed_at` that moment.
    pub fn active_elapsed(&self, clock: &mut Clock) -> (total: u64)
        ensures
            old(clock)@.monotonic <= final(clock)@.monotonic,
            total == self@.active_elapsed(final(clock)@.monotonic as int),
    {
        self.active_elapsed_at(clock.now().monotonic)
    }

    /// The time that all stopwatches together have counted as seen at the
    /// monotonic moment `now`, in nanoseconds.
    pub fn active_elapsed_at(&self, now: i64) -> (total: u64)
        ensures
            total == self@.active_elapsed(now as int),
    {
        let mut total: u64 = 0;
        let mut i: usize = 0;
        while i < self.tasks.len()
            invariant
                i <= self.tasks.len(),
                total == saturate(sum_elapsed(self@.tasks.take(i as int), now as int) as int),
            decreases self.tasks.len() - i,
        {
            proof {
                assert(self@.tasks.take(i + 1).drop_last() =~= self@.tasks.take(i as int));
            }
            total = total.saturating_add(self.tasks[i].timer.elapsed_at(now));
            i += 1;
        }
        proof {
            assert(self@.tasks.take(i as int) =~= self@.tasks);
        }
        total
    }
}

} // verus!
