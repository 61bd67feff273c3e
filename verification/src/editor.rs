//! The bridge to the external editor: which program is run, on which
//! scratch file, and in which order the steps follow each other.
//!
//! The steps themselves (writing the file, leaving and restoring the
//! screen, running the program) are the caller's; what is decided here
//! is what comes next after each.

use vstd::prelude::*;
use crate::screen::Field;

verus! {

/// The environment variable that names the editor program.
pub const EDITOR_VARIABLE: &'static str = "EDITOR";

/// The editor program that is run where the environment names none.
pub const DEFAULT_EDITOR: &'static str = "nano";

/// The program to run: the one that the environment names, or the
/// default.
pub fn editor_command(configured: Option<String>) -> (program: String)
    ensures
        program@ == (match configured {
            Some(name) => name@,
            None => DEFAULT_EDITOR@,
        }),
{
    match configured {
        Some(name) => name,
        None => DEFAULT_EDITOR.to_owned(),
    }
}

/// The scratch file of each field. The text of an item and the text of
/// a new item share one: only one edit is under way at a time.
pub open spec fn scratch_of(field: Field) -> Seq<char> {
    match field {
        Field::Text | Field::NewItem => "/tmp/todo_edit.txt"@,
        Field::DueDate => "/tmp/todo_due.txt"@,
        Field::Reminder => "/tmp/todo_reminder.txt"@,
    }
}

/// The path of the scratch file through which `field` is edited.
pub fn scratch_path(field: Field) -> (path: &'static str)
    ensures
        path@ == scratch_of(field),
{
    match field {
        Field::Text | Field::NewItem => "/tmp/todo_edit.txt",
        Field::DueDate => "/tmp/todo_due.txt",
        Field::Reminder => "/tmp/todo_reminder.txt",
    }
}

/// One step of an edit through the external editor.
#[derive(Clone, Copy, Debug, PartialEq, Eq, Structural)]
pub enum Step {
    /// Write the field's value to the scratch file.
    WriteSeed,
    /// Leave the full screen and the raw input mode.
    LeaveScreen,
    /// Run the editor on the scratch file and wait for it to end.
    Launch,
    /// Enter the full screen and the raw input mode again, clear the
    /// screen and draw it empty.
    RestoreScreen,
    /// Read the scratch file whole, as it is.
    ReadBack,
}

/// What follows a step.
#[derive(Clone, Copy, Debug, PartialEq, Eq, Structural)]
pub enum Next {
    /// This step is to be taken.
    Do(Step),
    /// The edit is over, and what was read is its result.
    Done,
    /// The edit has failed, and it has no result.
    Fail,
}

/// The step that an edit begins with.
pub fn first_step() -> (step: Step)
    ensures
        step == Step::WriteSeed,
{
    Step::WriteSeed
}

/// What follows `step`, which went well or not. The screen is restored
/// whether or not the editor could be run; any other step that fails
/// ends the edit.
pub open spec fn following(step: Step, ok: bool) -> Next {
    match step {
        Step::Launch => Next::Do(Step::RestoreScreen),
        Step::WriteSeed => if ok {
            Next::Do(Step::LeaveScreen)
        } else {
            Next::Fail
        },
        Step::LeaveScreen => if ok {
            Next::Do(Step::Launch)
        } else {
            Next::Fail
        },
        Step::RestoreScreen => if ok {
            Next::Do(Step::ReadBack)
        } else {
            Next::Fail
        },
        Step::ReadBack => if ok {
            Next::Done
        } else {
            Next::Fail
        },
    }
}

/// What follows `step`, which went well or not.
pub fn next_step(step: Step, ok: bool) -> (next: Next)
    ensures
        next == following(step, ok),
{
    match step {
        Step::Launch => Next::Do(Step::RestoreScreen),
        Step::WriteSeed => if ok {
            Next::Do(Step::LeaveScreen)
        } else {
            Next::Fail
        },
        Step::LeaveScreen => if ok {
            Next::Do(Step::Launch)
        } else {
            Next::Fail
        },
        Step::RestoreScreen => if ok {
            Next::Do(Step::ReadBack)
        } else {
            Next::Fail
        },
        Step::ReadBack => if ok {
            Next::Done
        } else {
            Next::Fail
        },
    }
}

} // verus!
