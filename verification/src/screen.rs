//! What the screen shows: one line for each task, the total of all
//! stopwatches, and the place of the cursor. Drawing is the caller's part.

use crate::approx_instant::NANOS_PER_SEC;
use crate::clock::Clock;
use crate::state::App;
use crate::state::AppView;
use crate::state::InputMode;
use crate::state::Task;
use crate::state::TaskView;
use std::time::Duration;
use unicode_width::UnicodeWidthStr;
use vstd::prelude::*;

verus! {

/// What `humantime::format_duration` writes for a duration of `secs` whole
/// seconds, such as `2h 37m` for 9420.
pub uninterp spec fn duration_text(secs: u64) -> Seq<char>;

/// The number of terminal columns that `UnicodeWidthStr::width` counts for a
/// text.
pub uninterp spec fn display_width(text: Seq<char>) -> nat;

/// `humantime::format_duration` on a `Duration` of `secs` seconds and no
/// nanoseconds, written out as a string. The text depends on the number
/// alone; it is known here only by the name `duration_text`.
#[verifier::external_body]
fn format_seconds(secs: u64) -> (text: String)
    ensures
        text@ == duration_text(secs),
{
    humantime::format_duration(Duration::new(secs, 0)).to_string()
}

/// `UnicodeWidthStr::width` of the text. The width depends on the text
/// alone; it is known here only by the name `display_width`.
#[verifier::external_body]
fn text_width(text: &str) -> (columns: usize)
    ensures
        columns == display_width(text@),
{
    UnicodeWidthStr::width(text)
}

/// How a line of the task list is drawn.
#[derive(Clone, Copy, Debug, PartialEq, Eq, Structural)]
pub enum RowStyle {
    /// The selected task, its stopwatch running.
    SelectedRunning,
    /// The selected task, its stopwatch stopped.
    Selected,
    /// Another task, its stopwatch running.
    Running,
    /// Another task, its stopwatch stopped.
    Plain,
}

/// One line of the task list.
#[derive(Clone, Debug, PartialEq, Eq)]
pub struct Row {
    pub text: String,
    pub style: RowStyle,
}

/// What a line of the task list is.
pub struct RowView {
    pub text: Seq<char>,
    pub style: RowStyle,
}

impl View for Row {
    type V = RowView;

    open spec fn view(&self) -> RowView {
        RowView { text: self.text@, style: self.style }
    }
}

/// The rows of a list, each by its view.
pub open spec fn row_views(rows: Seq<Row>) -> Seq<RowView> {
    rows.map_values(|row: Row| row@)
}

/// The whole seconds in a number of nanoseconds.
pub open spec fn whole_seconds(nanos: nat) -> u64 {
    (nanos / (NANOS_PER_SEC as nat)) as u64
}

/// The style of the line of a task.
pub open spec fn row_style(selected: bool, running: bool) -> RowStyle {
    if selected {
        if running {
            RowStyle::SelectedRunning
        } else {
            RowStyle::Selected
        }
    } else {
        if running {
            RowStyle::Running
        } else {
            RowStyle::Plain
        }
    }
}

/// The text of a line: a mark for a running stopwatch, the name of the
/// task, and the time counted for it.
pub open spec fn row_text(running: bool, description: Seq<char>, time: Seq<char>) -> Seq<char> {
    (if running {
        " \u{25ba} "@
    } else {
        "  "@
    }) + description + " - "@ + time
}

/// The text of the total.
pub open spec fn total_text(time: Seq<char>) -> Seq<char> {
    " Total Time: "@ + time + " "@
}

/// The column `width` columns right of `left`, or the last column there is.
pub open spec fn column_after(left: u16, width: nat) -> u16 {
    if left + width > u16::MAX {
        u16::MAX
    } else {
        (left + width) as u16
    }
}

impl TaskView {
    /// The line for this entry of the list as seen at `now`.
    pub open spec fn row(self, selected: bool, now: int) -> RowView {
        RowView {
            text: row_text(
                self.timer.is_running(),
                self.description,
                duration_text(whole_seconds(self.timer.elapsed_at(now))),
            ),
            style: row_style(selected, self.timer.is_running()),
        }
    }
}

impl AppView {
    /// The lines of the task list as seen at `now`.
    pub open spec fn rows(self, now: int) -> Seq<RowView> {
        Seq::new(self.tasks.len(), |i: int| self.tasks[i].row(i == self.selected_task, now))
    }

    /// The line that shows the total of all stopwatches as seen at `now`.
    pub open spec fn total_time(self, now: int) -> Seq<char> {
        total_text(duration_text(whole_seconds(self.active_elapsed(now))))
    }

    /// Where the cursor stands in an input box whose text begins at column
    /// `left`: behind the text while editing, nowhere otherwise.
    pub open spec fn cursor_column(self, left: u16) -> Option<u16> {
        match self.input_mode {
            InputMode::Editing => Some(column_after(left, display_width(self.input))),
            InputMode::Normal => None,
        }
    }
}

/// The line for a task named `description`, given the time counted for it as
/// text.
pub fn row_for(selected: bool, running: bool, description: &str, time: &str) -> (row: Row)
    ensures
        row@.text == row_text(running, description@, time@),
        row@.style == row_style(selected, running),
{
    let mut text = String::from_str(
        if running {
            " \u{25ba} "
        } else {
            "  "
        },
    );
    text.append(description);
    text.append(" - ");
    text.append(time);
    let style = if selected {
        if running {
            RowStyle::SelectedRunning
        } else {
            RowStyle::Selected
        }
    } else {
        if running {
            RowStyle::Running
        } else {
            RowStyle::Plain
        }
    };
    Row { text, style }
}

/// The line that shows a total, given the total as text.
pub fn total_line_for(time: &str) -> (line: String)
    ensures
        line@ == total_text(time@),
{
    let mut line = String::from_str(" Total Time: ");
    line.append(time);
    line.append(" ");
    line
}

/// The column behind a text of `width` columns that begins at `left`.
pub fn column_for(left: u16, width: usize) -> (column: u16)
    ensures
        column == column_after(left, width as nat),
{
    if width > (u16::MAX - left) as usize {
        u16::MAX
    } else {
        left + width as u16
    }
}

impl Task {
    /// The line for this entry of the list as seen at the monotonic moment
    /// `now`. The time is shown in whole seconds.
    pub fn row_at(&self, selected: bool, now: i64) -> (row: Row)
        ensures
            row@ == self@.row(selected, now as int),
    {
        let time = format_seconds(self.timer.elapsed_at(now) / NANOS_PER_SEC);
        row_for(selected, self.timer.is_running(), self.description.as_str(), time.as_str())
    }
}

impl App {
    /// The lines of the task list as seen at the monotonic moment `now`.
    pub fn rows_at(&self, now: i64) -> (rows: Vec<Row>)
        ensures
            row_views(rows@) == self@.rows(now as int),
    {
        let mut rows: Vec<Row> = Vec::new();
        let mut i: usize = 0;
        while i < self.tasks.len()
            invariant
                i <= self.tasks.len(),
                rows.len() == i,
                forall|j: int|
                    0 <= j < i ==> (#[trigger] rows[j])@ == self@.tasks[j].row(
                        j == self.selected_task,
                        now as int,
                    ),
            decreases self.tasks.len() - i,
        {
            rows.push(self.tasks[i].row_at(i == self.selected_task, now));
            i += 1;
        }
        rows
    }

    /// Reads the clock and gives `rows_at` that moment.
    pub fn rows(&self, clock: &mut Clock) -> (rows: Vec<Row>)
        ensures
            old(clock)@.monotonic <= final(clock)@.monotonic,
            row_views(rows@) == self@.rows(final(clock)@.monotonic as int),
    {
        self.rows_at(clock.now().monotonic)
    }

    /// The line that shows the total of all stopwatches as seen at the
    /// monotonic moment `now`, in whole seconds.
    pub fn total_time_at(&self, now: i64) -> (line: String)
        ensures
            line@ == self@.total_time(now as int),
    {
        let time = format_seconds(self.active_elapsed_at(now) / NANOS_PER_SEC);
        total_line_for(time.as_str())
    }

    /// Reads the clock and gives `total_time_at` that moment.
    pub fn total_time(&self, clock: &mut Clock) -> (line: String)
        ensures
            old(clock)@.monotonic <= final(clock)@.monotonic,
            line@ == self@.total_time(final(clock)@.monotonic as int),
    {
        self.total_time_at(clock.now().monotonic)
    }

    /// Where to put the cursor in an input box whose text begins at column
    /// `left`: behind the typed text while editing, and nowhere, which hides
    /// it, otherwise.
    pub fn cursor_column(&self, left: u16) -> (column: Option<u16>)
        ensures
            column == self@.cursor_column(left),
    {
        match self.input_mode {
            InputMode::Editing => Some(column_for(left, text_width(self.input.as_str()))),
            InputMode::Normal => None,
        }
    }
}

} // verus!
