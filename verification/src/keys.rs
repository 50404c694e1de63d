//! What each key does. The caller reads the keyboard, hands every key to
//! `handle_key`, and carries out the action that comes back.

use crate::clock::Clock;
use crate::clock::Now;
use crate::error::Error;
use crate::state::outcome;
use crate::state::Action;
use crate::state::ActionView;
use crate::state::App;
use crate::state::AppView;
use crate::state::InputMode;
use vstd::prelude::*;

verus! {

/// A key press, as far as the program tells keys apart.
#[derive(Clone, Copy, Debug, PartialEq, Eq)]
pub enum Key {
    Char(char),
    Enter,
    Backspace,
    Esc,
    Other,
}

/// Whether a key dismisses the list of key bindings.
pub open spec fn closes_help_spec(key: Key) -> bool {
    key == Key::Esc || key == Key::Char('?') || key == Key::Char('q')
}

/// Whether a key dismisses the list of key bindings: escape, `?` and `q` do.
pub fn closes_help(key: Key) -> (closes: bool)
    ensures
        closes == closes_help_spec(key),
{
    match key {
        Key::Esc => true,
        Key::Char(c) => c == '?' || c == 'q',
        _ => false,
    }
}

impl AppView {
    /// The input without its last character.
    pub open spec fn erase(self) -> AppView {
        if self.input.len() == 0 {
            self
        } else {
            AppView { input: self.input.drop_last(), ..self }
        }
    }

    /// The typed text becomes a new task and the input is cleared. With
    /// nothing typed nothing happens, and the editing mode stays.
    pub open spec fn submit(self, now: Now) -> (AppView, Result<ActionView, Error>) {
        if self.input.len() == 0 {
            (self, Ok(ActionView::Nothing))
        } else {
            (AppView { input: Seq::empty(), ..self }).add_task(self.input, now)
        }
    }

    /// What a key does while keys are commands.
    pub open spec fn command(self, key: Key, now: Now) -> (AppView, Result<ActionView, Error>) {
        match key {
            Key::Char(c) => if c == 'a' {
                (AppView { input_mode: InputMode::Editing, ..self }, Ok(ActionView::Nothing))
            } else if c == 'q' {
                (self, Ok(ActionView::Quit))
            } else if c == 'k' {
                (self.move_up(), Ok(ActionView::Nothing))
            } else if c == 'j' {
                (self.move_down(), Ok(ActionView::Nothing))
            } else if c == 'l' {
                self.toggle_play_pause_selected_task(now)
            } else if c == 'x' {
                self.delete_selected_task(now)
            } else if c == 'r' {
                self.reset_selected_task(now)
            } else if c == 'C' {
                self.complete_selected_task(now)
            } else if c == 's' {
                (self, self.persist(now))
            } else if c == '?' {
                (self, Ok(ActionView::ShowHelp))
            } else {
                (self, Ok(ActionView::Nothing))
            },
            _ => (self, Ok(ActionView::Nothing)),
        }
    }

    /// What a key does while keys are text. Escape leaves the editing mode
    /// and keeps what was typed.
    pub open spec fn edit(self, key: Key, now: Now) -> (AppView, Result<ActionView, Error>) {
        match key {
            Key::Enter => self.submit(now),
            Key::Char(c) => (AppView { input: self.input.push(c), ..self }, Ok(ActionView::Nothing)),
            Key::Backspace => (self.erase(), Ok(ActionView::Nothing)),
            Key::Esc => (AppView { input_mode: InputMode::Normal, ..self }, Ok(ActionView::Nothing)),
            Key::Other => (self, Ok(ActionView::Nothing)),
        }
    }

    /// What a key does.
    pub open spec fn handle_key(self, key: Key, now: Now) -> (AppView, Result<ActionView, Error>) {
        match self.input_mode {
            InputMode::Normal => self.command(key, now),
            InputMode::Editing => self.edit(key, now),
        }
    }
}

impl App {
    /// Enter in the editing mode: the typed text becomes a new task.
    fn submit_at(&mut self, now: Now) -> (out: Result<Action, Error>)
        ensures
            (final(self)@, outcome(out)) == old(self)@.submit(now),
    {
        if self.input.as_str().is_empty() {
            return Ok(Action::Nothing);
        }
        let description = self.input.clone();
        self.input = String::new();
        self.add_task_at(description.as_str(), now)
    }

    /// A key in the normal mode.
    fn command_at(&mut self, key: Key, now: Now) -> (out: Result<Action, Error>)
        ensures
            (final(self)@, outcome(out)) == old(self)@.command(key, now),
    {
        match key {
            Key::Char(c) => {
                if c == 'a' {
                    self.input_mode = InputMode::Editing;
                    Ok(Action::Nothing)
                } else if c == 'q' {
                    Ok(Action::Quit)
                } else if c == 'k' {
                    self.move_up();
                    Ok(Action::Nothing)
                } else if c == 'j' {
                    self.move_down();
                    Ok(Action::Nothing)
                } else if c == 'l' {
                    self.toggle_play_pause_selected_task_at(now)
                } else if c == 'x' {
                    self.delete_selected_task_at(now)
                } else if c == 'r' {
                    self.reset_selected_task_at(now)
                } else if c == 'C' {
                    self.complete_selected_task_at(now)
                } else if c == 's' {
                    match self.save_at(now) {
                        Ok(records) => Ok(Action::Save(records)),
                        Err(e) => Err(e),
                    }
                } else if c == '?' {
                    Ok(Action::ShowHelp)
                } else {
                    Ok(Action::Nothing)
                }
            },
            _ => Ok(Action::Nothing),
        }
    }

    /// A key in the editing mode.
    fn edit_at(&mut self, key: Key, now: Now) -> (out: Result<Action, Error>)
        ensures
            (final(self)@, outcome(out)) == old(self)@.edit(key, now),
    {
        match key {
            Key::Enter => self.submit_at(now),
            Key::Char(c) => {
                self.input.push(c);
                Ok(Action::Nothing)
            },
            Key::Backspace => {
                self.input.pop();
                Ok(Action::Nothing)
            },
            Key::Esc => {
                self.input_mode = InputMode::Normal;
                Ok(Action::Nothing)
            },
            Key::Other => Ok(Action::Nothing),
        }
    }

    /// Applies one key press, as clocks reading `now` see it, and says what
    /// the caller has to do.
    ///
    /// In the normal mode `a` begins a new task, `k` and `j` move the
    /// selection up and down, `l` pauses or resumes the selected task, `r`
    /// resets it, `x` deletes it, `C` completes it, `s` saves, `?` shows the
    /// key bindings and `q` quits. In the editing mode characters are typed
    /// and erased, enter turns the text into a task and escape goes back,
    /// keeping the text.
    pub fn handle_key_at(&mut self, key: Key, now: Now) -> (out: Result<Action, Error>)
        ensures
            (final(self)@, outcome(out)) == old(self)@.handle_key(key, now),
    {
        match self.input_mode {
            InputMode::Normal => self.command_at(key, now),
            InputMode::Editing => self.edit_at(key, now),
        }
    }

    /// Reads the clock and does `handle_key_at` that reading.
    pub fn handle_key(&mut self, key: Key, clock: &mut Clock) -> (out: Result<Action, Error>)
        ensures
            old(clock)@.monotonic <= final(clock)@.monotonic,
            (final(self)@, outcome(out)) == old(self)@.handle_key(key, final(clock)@),
    {
        self.handle_key_at(key, clock.now())
    }
}

} // verus!
