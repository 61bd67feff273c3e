//! What the command line prints about the outcome of an operation.

use vstd::prelude::*;
use vstd::string::StringExecFns;
use crate::commands::{Outcome, OutcomeView};
use crate::text::{decimal, push_decimal, texts};

verus! {

/// Where the list is kept.
#[derive(Clone, Copy, Debug, PartialEq, Eq, Structural)]
pub enum Store {
    Json,
    Sqlite,
}

/// The lines to print, and whether they go to the error stream.
#[derive(Debug, PartialEq, Eq)]
pub struct Report {
    pub lines: Vec<String>,
    pub is_error: bool,
}

/// The mark that a message carries for the store.
pub open spec fn store_mark(store: Store) -> Seq<char> {
    match store {
        Store::Json => ""@,
        Store::Sqlite => " (SQLite)"@,
    }
}

/// Whether the outcome is a failure, which is reported on the error
/// stream.
pub open spec fn is_failure(outcome: OutcomeView) -> bool {
    outcome is NotFound || outcome is BadDate || outcome is BadDateTime
}

/// The lines that report `outcome`. An outcome that asks for more work
/// has none.
pub open spec fn report_lines(outcome: OutcomeView, store: Store) -> Seq<Seq<char>> {
    match outcome {
        OutcomeView::Added => seq!["✅ Todo added"@ + store_mark(store) + "!"@],
        OutcomeView::MarkedDone => seq!["🎉 Todo marked as done"@ + store_mark(store) + "!"@],
        OutcomeView::Updated => seq!["📝 Todo updated"@ + store_mark(store) + "!"@],
        OutcomeView::Deleted { id } => seq![
            "🗑️ Deleted todo with id "@ + decimal(id as nat) + store_mark(store),
        ],
        OutcomeView::DueSet { id } => seq![
            "📅 Due date set for todo "@ + decimal(id as nat) + store_mark(store) + "!"@,
        ],
        OutcomeView::ReminderSet { id } => seq![
            "⏰ Reminder set for todo "@ + decimal(id as nat) + store_mark(store) + "!"@,
        ],
        OutcomeView::ReminderCleared { id } => seq![
            "🗑️ Reminder cleared for todo "@ + decimal(id as nat) + store_mark(store) + "!"@,
        ],
        OutcomeView::NotFound { id } => seq![
            "❌ Todo with id "@ + decimal(id as nat) + " not found"@,
        ],
        OutcomeView::BadDate => seq!["❌ Invalid date format. Please use YYYY-MM-DD"@],
        OutcomeView::BadDateTime => seq![
            "❌ Invalid date/time format. Please use YYYY-MM-DD HH:MM"@,
        ],
        OutcomeView::Listed { rows } => rows,
        OutcomeView::Upcoming { rows } => if rows.len() == 0 {
            seq!["No upcoming reminders"@]
        } else {
            seq!["Upcoming reminders:"@] + rows
        },
        OutcomeView::Edit { .. } | OutcomeView::Screen => Seq::empty(),
    }
}

/// The mark that a message carries for the store.
fn mark_of(store: Store) -> (mark: &'static str)
    ensures
        mark@ == store_mark(store),
{
    match store {
        Store::Json => "",
        Store::Sqlite => " (SQLite)",
    }
}

/// The line `head`, `id`, the store's mark and `tail`, in this order.
fn line_with_id(head: &str, id: usize, store: Store, tail: &str) -> (line: String)
    ensures
        line@ == head@ + decimal(id as nat) + store_mark(store) + tail@,
{
    let mut line = head.to_owned();
    push_decimal(&mut line, id);
    line.append(mark_of(store));
    line.append(tail);
    line
}

/// The line `head`, the store's mark and `tail`, in this order.
fn line_with_mark(head: &str, store: Store, tail: &str) -> (line: String)
    ensures
        line@ == head@ + store_mark(store) + tail@,
{
    let mut line = head.to_owned();
    line.append(mark_of(store));
    line.append(tail);
    line
}

/// Copies of `rows` after what `lines` holds.
fn append_rows(lines: &mut Vec<String>, rows: &Vec<String>)
    ensures
        texts(final(lines)@) == texts(old(lines)@) + texts(rows@),
{
    let mut i: usize = 0;
    while i < rows.len()
        invariant
            i <= rows.len(),
            texts(lines@) == texts(old(lines)@) + texts(rows@).take(i as int),
        decreases rows.len() - i,
    {
        let ghost so_far = lines@;
        lines.push(rows[i].clone());
        assert(texts(lines@) =~= texts(so_far).push(rows[i as int]@));
        i += 1;
    }
}

/// The report of `outcome` for a list kept in `store`.
pub fn report(outcome: &Outcome, store: Store) -> (r: Report)
    ensures
        texts(r.lines@) == report_lines(outcome@, store),
        r.is_error == is_failure(outcome@),
{
    let mut lines: Vec<String> = Vec::new();
    let mut is_error = false;
    match outcome {
        Outcome::Added => lines.push(line_with_mark("✅ Todo added", store, "!")),
        Outcome::MarkedDone => lines.push(line_with_mark("🎉 Todo marked as done", store, "!")),
        Outcome::Updated => lines.push(line_with_mark("📝 Todo updated", store, "!")),
        Outcome::Deleted { id } => lines.push(
            line_with_id("🗑️ Deleted todo with id ", *id, store, ""),
        ),
        Outcome::DueSet { id } => lines.push(
            line_with_id("📅 Due date set for todo ", *id, store, "!"),
        ),
        Outcome::ReminderSet { id } => lines.push(
            line_with_id("⏰ Reminder set for todo ", *id, store, "!"),
        ),
        Outcome::ReminderCleared { id } => lines.push(
            line_with_id("🗑️ Reminder cleared for todo ", *id, store, "!"),
        ),
        Outcome::NotFound { id } => {
            let mut line = "❌ Todo with id ".to_owned();
            push_decimal(&mut line, *id);
            line.append(" not found");
            lines.push(line);
            is_error = true;
        },
        Outcome::BadDate => {
            lines.push("❌ Invalid date format. Please use YYYY-MM-DD".to_owned());
            is_error = true;
        },
        Outcome::BadDateTime => {
            lines.push("❌ Invalid date/time format. Please use YYYY-MM-DD HH:MM".to_owned());
            is_error = true;
        },
        Outcome::Listed { rows } => append_rows(&mut lines, rows),
        Outcome::Upcoming { rows } => {
            if rows.len() == 0 {
                lines.push("No upcoming reminders".to_owned());
            } else {
                lines.push("Upcoming reminders:".to_owned());
                append_rows(&mut lines, rows);
            }
        },
        Outcome::Edit { .. } => {},
        Outcome::Screen => {},
    }
    proof {
        reveal_strlit("");
        assert(texts(lines@) =~= report_lines(outcome@, store));
    }
    Report { lines, is_error }
}

} // verus!
