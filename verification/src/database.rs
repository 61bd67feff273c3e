//! The operations on a list that is kept in the table `todos` of an
//! SQLite database: which statement each runs, with which values, and
//! what the number of rows that it touched means.
//!
//! The statements are run by the caller; what is decided here is what
//! to run and how to read the result.

use vstd::prelude::*;
use crate::commands::{Commands, Outcome, OutcomeView, is_moment, reminder_text};
use crate::dates::{
    Date, DateTime, FormatError, date_and_time, date_in, time_in, validate_date,
    validate_datetime,
};
use crate::item::opt_text;
use crate::text::{join, joined, texts, trimmed};

verus! {

/// The scratch file through which the text of a row is edited.
pub const EDIT_SCRATCH: &'static str = "/tmp/todo_sqlite_edit.txt";

/// A statement that changes the table.
#[derive(Clone, Copy, Debug, PartialEq, Eq, Structural)]
pub enum Statement {
    Insert,
    MarkDone,
    SetText,
    Delete,
    SetDue,
    SetReminder,
    ClearReminder,
}

/// The text of each statement. A statement that takes a text and an id
/// takes the text first.
pub open spec fn sql_of(statement: Statement) -> Seq<char> {
    match statement {
        Statement::Insert => "INSERT INTO todos (text, done) VALUES (?1, 0)"@,
        Statement::MarkDone => "UPDATE todos SET done = 1 WHERE id = ?1"@,
        Statement::SetText => "UPDATE todos SET text = ?1 WHERE id = ?2"@,
        Statement::Delete => "DELETE FROM todos WHERE id = ?1"@,
        Statement::SetDue => "UPDATE todos SET due_date = ?1 WHERE id = ?2"@,
        Statement::SetReminder => "UPDATE todos SET reminder = ?1 WHERE id = ?2"@,
        Statement::ClearReminder => "UPDATE todos SET reminder = NULL WHERE id = ?1"@,
    }
}

/// The text of `statement`.
pub fn sql(statement: Statement) -> (text: &'static str)
    ensures
        text@ == sql_of(statement),
{
    match statement {
        Statement::Insert => "INSERT INTO todos (text, done) VALUES (?1, 0)",
        Statement::MarkDone => "UPDATE todos SET done = 1 WHERE id = ?1",
        Statement::SetText => "UPDATE todos SET text = ?1 WHERE id = ?2",
        Statement::Delete => "DELETE FROM todos WHERE id = ?1",
        Statement::SetDue => "UPDATE todos SET due_date = ?1 WHERE id = ?2",
        Statement::SetReminder => "UPDATE todos SET reminder = ?1 WHERE id = ?2",
        Statement::ClearReminder => "UPDATE todos SET reminder = NULL WHERE id = ?1",
    }
}

/// One change to the table: the statement, its values, and how its
/// result is read.
#[derive(Debug, PartialEq, Eq)]
pub struct Change {
    pub statement: Statement,
    /// The text that the statement takes, if it takes one.
    pub text: Option<String>,
    /// The id that the statement takes, if it takes one.
    pub id: Option<usize>,
    /// What is reported where the statement has done its work.
    pub made: Outcome,
    /// Whether a statement that touched no row means that no item has
    /// the id.
    pub needs_row: bool,
}

/// A [`Change`] as plain values.
pub struct ChangeView {
    pub statement: Statement,
    pub text: Option<Seq<char>>,
    pub id: Option<usize>,
    pub made: OutcomeView,
    pub needs_row: bool,
}

impl View for Change {
    type V = ChangeView;

    open spec fn view(&self) -> ChangeView {
        ChangeView {
            statement: self.statement,
            text: opt_text(self.text),
            id: self.id,
            made: self.made@,
            needs_row: self.needs_row,
        }
    }
}

/// What is to be done for an operation.
#[derive(Debug, PartialEq, Eq)]
pub enum Plan {
    /// Run the statement, and hand the number of rows that it touched to
    /// [`settle`].
    Change(Change),
    /// Nothing is to be run: this is the outcome.
    Answer(Outcome),
    /// Look up the text of the row with this id. Where there is one,
    /// run the external editor on it, hand its result to [`edited`] and
    /// do what that plans; where there is none, no item has the id.
    Edit { id: usize },
    /// Load the rows and list them.
    List,
    /// Load the rows and list the reminders that lie ahead.
    Upcoming,
    /// Load the rows, run the interactive list editor on them, and
    /// store what it hands back.
    Screen,
}

/// A [`Plan`] as plain values.
pub enum PlanView {
    Change(ChangeView),
    Answer(OutcomeView),
    Edit { id: usize },
    List,
    Upcoming,
    Screen,
}

impl View for Plan {
    type V = PlanView;

    open spec fn view(&self) -> PlanView {
        match *self {
            Plan::Change(change) => PlanView::Change(change@),
            Plan::Answer(outcome) => PlanView::Answer(outcome@),
            Plan::Edit { id } => PlanView::Edit { id },
            Plan::List => PlanView::List,
            Plan::Upcoming => PlanView::Upcoming,
            Plan::Screen => PlanView::Screen,
        }
    }
}

/// The change that goes by the id `id` and has to touch a row.
pub open spec fn by_id(
    statement: Statement,
    text: Option<Seq<char>>,
    id: usize,
    made: OutcomeView,
) -> PlanView {
    PlanView::Change(ChangeView { statement, text, id: Some(id), made, needs_row: true })
}

/// What is to be done to set the due date of the row with the id `id`
/// to `date`, where `is_date` says whether `date` is one.
pub open spec fn due_planned(id: usize, date: Seq<char>, is_date: bool) -> PlanView {
    if is_date {
        by_id(Statement::SetDue, Some(date), id, OutcomeView::DueSet { id })
    } else {
        PlanView::Answer(OutcomeView::BadDate)
    }
}

/// What is to be done to set the reminder of the row with the id `id`
/// to the minute in `parsed`.
pub open spec fn reminder_planned(id: usize, parsed: Result<DateTime, FormatError>) -> PlanView {
    if is_moment(parsed) {
        by_id(
            Statement::SetReminder,
            Some(parsed->Ok_0.stamp()),
            id,
            OutcomeView::ReminderSet { id },
        )
    } else {
        PlanView::Answer(OutcomeView::BadDateTime)
    }
}

/// What is to be done for `cmd`. A date or a time is looked at before
/// anything is run.
pub open spec fn planned(cmd: Commands) -> PlanView {
    match cmd {
        Commands::Add { text } => PlanView::Change(
            ChangeView {
                statement: Statement::Insert,
                text: Some(joined(texts(text@), " "@)),
                id: None,
                made: OutcomeView::Added,
                needs_row: false,
            },
        ),
        Commands::Done { id } => by_id(Statement::MarkDone, None, id, OutcomeView::MarkedDone),
        Commands::Edit { id } => PlanView::Edit { id },
        Commands::Delete { id } => by_id(Statement::Delete, None, id, OutcomeView::Deleted { id }),
        Commands::List => PlanView::List,
        Commands::Tui => PlanView::Screen,
        Commands::Due { id, date } => due_planned(id, date@, date_in(date@) is Some),
        Commands::Remind { id, date, time } => match date_and_time(
            date_in(date@),
            time_in(time@),
        ) {
            Ok(at) => by_id(
                Statement::SetReminder,
                Some(at.stamp()),
                id,
                OutcomeView::ReminderSet { id },
            ),
            Err(_) => PlanView::Answer(OutcomeView::BadDateTime),
        },
        Commands::Upcoming => PlanView::Upcoming,
        Commands::ClearReminder { id } => by_id(
            Statement::ClearReminder,
            None,
            id,
            OutcomeView::ReminderCleared { id },
        ),
    }
}

/// The change that goes by the id `id` and has to touch a row.
fn change_by_id(statement: Statement, text: Option<String>, id: usize, made: Outcome) -> (plan:
    Plan)
    ensures
        plan@ == by_id(statement, opt_text(text), id, made@),
{
    Plan::Change(Change { statement, text, id: Some(id), made, needs_row: true })
}

/// Decides what is to be done to set the due date of the row with the
/// id `id` to `date` as it is written, where `parsed` shows that it is a
/// date.
pub fn plan_due(id: usize, date: String, parsed: Result<Date, FormatError>) -> (plan: Plan)
    ensures
        plan@ == due_planned(id, date@, parsed is Ok),
{
    match parsed {
        Ok(_) => change_by_id(Statement::SetDue, Some(date), id, Outcome::DueSet { id }),
        Err(_) => Plan::Answer(Outcome::BadDate),
    }
}

/// Decides what is to be done to set the reminder of the row with the
/// id `id` to the minute in `parsed`, written as `YYYY-MM-DD HH:MM`.
pub fn plan_reminder(id: usize, parsed: Result<DateTime, FormatError>) -> (plan: Plan)
    ensures
        plan@ == reminder_planned(id, parsed),
{
    match reminder_text(parsed) {
        Some(stamp) => change_by_id(
            Statement::SetReminder,
            Some(stamp),
            id,
            Outcome::ReminderSet { id },
        ),
        None => Plan::Answer(Outcome::BadDateTime),
    }
}

/// Decides what is to be done for `cmd` on a list that is kept in the
/// database.
pub fn handle_sqlite_commands(cmd: Commands) -> (plan: Plan)
    ensures
        plan@ == planned(cmd),
{
    match cmd {
        Commands::Add { text } => Plan::Change(
            Change {
                statement: Statement::Insert,
                text: Some(join(&text, " ")),
                id: None,
                made: Outcome::Added,
                needs_row: false,
            },
        ),
        Commands::Done { id } => change_by_id(Statement::MarkDone, None, id, Outcome::MarkedDone),
        Commands::Edit { id } => Plan::Edit { id },
        Commands::Delete { id } => change_by_id(
            Statement::Delete,
            None,
            id,
            Outcome::Deleted { id },
        ),
        Commands::List => Plan::List,
        Commands::Tui => Plan::Screen,
        Commands::Due { id, date } => {
            let parsed = validate_date(date.as_str());
            plan_due(id, date, parsed)
        },
        Commands::Remind { id, date, time } => {
            let parsed = validate_datetime(date.as_str(), time.as_str());
            plan_reminder(id, parsed)
        },
        Commands::Upcoming => Plan::Upcoming,
        Commands::ClearReminder { id } => change_by_id(
            Statement::ClearReminder,
            None,
            id,
            Outcome::ReminderCleared { id },
        ),
    }
}

/// What is to be done with what the external editor left for the text
/// of the row with the id `id`: the trimmed text is stored, and where
/// nothing is left after trimming the edit is discarded and nothing is
/// run. The row was found before, so the change need not touch one.
pub open spec fn edit_planned(id: usize, content: Seq<char>) -> PlanView {
    if trimmed(content).len() > 0 {
        PlanView::Change(
            ChangeView {
                statement: Statement::SetText,
                text: Some(trimmed(content)),
                id: Some(id),
                made: OutcomeView::Updated,
                needs_row: false,
            },
        )
    } else {
        PlanView::Answer(OutcomeView::Updated)
    }
}

/// Decides what is to be done with what the external editor left for
/// the text of the row with the id `id`.
pub fn edited(id: usize, content: &str) -> (plan: Plan)
    ensures
        plan@ == edit_planned(id, content@),
{
    let kept = content.trim();
    if kept.is_empty() {
        Plan::Answer(Outcome::Updated)
    } else {
        Plan::Change(
            Change {
                statement: Statement::SetText,
                text: Some(kept.to_owned()),
                id: Some(id),
                made: Outcome::Updated,
                needs_row: false,
            },
        )
    }
}

/// The outcome of a change whose statement touched `affected` rows:
/// that no item has the id where the change has to touch a row, goes
/// by an id and touched none, and else what the change was to make.
pub open spec fn settled(change: ChangeView, affected: usize) -> OutcomeView {
    match change.id {
        Some(id) if change.needs_row && affected == 0 => OutcomeView::NotFound { id },
        _ => change.made,
    }
}

/// The outcome of `change`, whose statement touched `affected` rows.
pub fn settle(change: Change, affected: usize) -> (outcome: Outcome)
    ensures
        outcome@ == settled(change@, affected),
{
    match change.id {
        Some(id) => if change.needs_row && affected == 0 {
            Outcome::NotFound { id }
        } else {
            change.made
        },
        None => change.made,
    }
}

} // verus!
