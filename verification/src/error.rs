//! What can go wrong.

use vstd::prelude::*;

verus! {

/// The ways an operation of this library fails.
#[derive(Clone, Copy, Debug, PartialEq, Eq, Structural)]
pub enum Error {
    /// A saved stopwatch holds a negative or oversized duration, or a start
    /// time that lies in the future. Only that one record is lost.
    MalformedTimer,
    /// The task list could not be written down. The change that was asked
    /// for has been made in memory all the same, but for the completion of a
    /// task, which is then not made at all.
    PersistenceFailure,
    /// The selection pointed past the end of the task list when the
    /// operation began.
    InvariantViolation,
    /// A task needs a description.
    EmptyDescription,
}

} // verus!
