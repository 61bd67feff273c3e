//! The command-line operations on a list of items: what each does to the
//! list, and what it reports.

use vstd::prelude::*;
use vstd::string::StringExecFns;
use crate::dates::{
    Date, DateTime, FormatError, date_and_time, date_in, format_datetime, time_in, validate_date,
    validate_datetime,
};
use crate::item::{Todo, TodoView, is_numbered, renumber, renumbered, views};
use crate::text::{append_or, decimal, join, joined, push_decimal, text_or, texts, trimmed};
use crate::upcoming::{shows_upcoming, upcoming};

verus! {

/// An operation that the command line asks for.
pub enum Commands {
    /// Add a new item with these words as its text.
    Add { text: Vec<String> },
    /// Mark the item with this id as done.
    Done { id: usize },
    /// Edit the text of the item with this id in the external editor.
    Edit { id: usize },
    /// Delete the items with this id.
    Delete { id: usize },
    /// List all items.
    List,
    /// Open the interactive list editor.
    Tui,
    /// Set the due date of the item with this id.
    Due { id: usize, date: String },
    /// Set the reminder of the item with this id.
    Remind { id: usize, date: String, time: String },
    /// List the reminders that lie ahead.
    Upcoming,
    /// Clear the reminder of the item with this id.
    ClearReminder { id: usize },
}

/// What an operation came to.
#[derive(Debug, PartialEq, Eq)]
pub enum Outcome {
    Added,
    MarkedDone,
    Updated,
    Deleted { id: usize },
    DueSet { id: usize },
    ReminderSet { id: usize },
    ReminderCleared { id: usize },
    /// No item has this id.
    NotFound { id: usize },
    /// The date is no date of the form `YYYY-MM-DD`.
    BadDate,
    /// The date and the time are not of the form `YYYY-MM-DD HH:MM`.
    BadDateTime,
    /// The rows of all items.
    Listed { rows: Vec<String> },
    /// The rows of the reminders that lie ahead, the nearest first.
    Upcoming { rows: Vec<String> },
    /// The external editor is to be run on `seed`, and its result handed
    /// to [`finish_edit`] with this id.
    Edit { id: usize, seed: String },
    /// The interactive list editor is to be run on the list.
    Screen,
}

/// An [`Outcome`] as plain values.
pub enum OutcomeView {
    Added,
    MarkedDone,
    Updated,
    Deleted { id: usize },
    DueSet { id: usize },
    ReminderSet { id: usize },
    ReminderCleared { id: usize },
    NotFound { id: usize },
    BadDate,
    BadDateTime,
    Listed { rows: Seq<Seq<char>> },
    Upcoming { rows: Seq<Seq<char>> },
    Edit { id: usize, seed: Seq<char> },
    Screen,
}

impl View for Outcome {
    type V = OutcomeView;

    open spec fn view(&self) -> OutcomeView {
        match *self {
            Outcome::Added => OutcomeView::Added,
            Outcome::MarkedDone => OutcomeView::MarkedDone,
            Outcome::Updated => OutcomeView::Updated,
            Outcome::Deleted { id } => OutcomeView::Deleted { id },
            Outcome::DueSet { id } => OutcomeView::DueSet { id },
            Outcome::ReminderSet { id } => OutcomeView::ReminderSet { id },
            Outcome::ReminderCleared { id } => OutcomeView::ReminderCleared { id },
            Outcome::NotFound { id } => OutcomeView::NotFound { id },
            Outcome::BadDate => OutcomeView::BadDate,
            Outcome::BadDateTime => OutcomeView::BadDateTime,
            Outcome::Listed { rows } => OutcomeView::Listed { rows: texts(rows@) },
            Outcome::Upcoming { rows } => OutcomeView::Upcoming { rows: texts(rows@) },
            Outcome::Edit { id, seed } => OutcomeView::Edit { id, seed: seed@ },
            Outcome::Screen => OutcomeView::Screen,
        }
    }
}

/// `at` is the place of the first item with the id `id`.
pub open spec fn is_first_with_id(items: Seq<TodoView>, id: usize, at: int) -> bool {
    &&& 0 <= at < items.len()
    &&& items[at].id == id
    &&& forall|j: int| 0 <= j < at ==> (#[trigger] items[j]).id != id
}

/// The place of the first item with the id `id`, if there is one.
pub open spec fn first_with_id(items: Seq<TodoView>, id: usize) -> Option<int> {
    if exists|at: int| is_first_with_id(items, id, at) {
        Some(choose|at: int| is_first_with_id(items, id, at))
    } else {
        None
    }
}

/// `items` with `change` made to the first item with the id `id`; as
/// they are where no item has it.
pub open spec fn with_first(
    items: Seq<TodoView>,
    id: usize,
    change: spec_fn(TodoView) -> TodoView,
) -> Seq<TodoView> {
    match first_with_id(items, id) {
        Some(at) => items.update(at, change(items[at])),
        None => items,
    }
}

/// The change that marks an item as done.
pub open spec fn marking_done() -> spec_fn(TodoView) -> TodoView {
    |t: TodoView| TodoView { done: true, ..t }
}

/// The change that gives an item the text `text`.
pub open spec fn setting_text(text: Seq<char>) -> spec_fn(TodoView) -> TodoView {
    |t: TodoView| TodoView { text, ..t }
}

/// The change that gives an item the due date `due_date`.
pub open spec fn setting_due(due_date: Option<Seq<char>>) -> spec_fn(TodoView) -> TodoView {
    |t: TodoView| TodoView { due_date, ..t }
}

/// The change that gives an item the reminder `reminder`.
pub open spec fn setting_reminder(reminder: Option<Seq<char>>) -> spec_fn(TodoView) -> TodoView {
    |t: TodoView| TodoView { reminder, ..t }
}

/// `found` where an item has the id `id`, and else that none has it.
pub open spec fn found_or_not(items: Seq<TodoView>, id: usize, found: OutcomeView) -> OutcomeView {
    if first_with_id(items, id) is Some {
        found
    } else {
        OutcomeView::NotFound { id }
    }
}

/// The place of the first item with the id `id`.
pub fn position(todos: &Vec<Todo>, id: usize) -> (found: Option<usize>)
    ensures
        match found {
            Some(at) => first_with_id(views(todos@), id) == Some(at as int),
            None => first_with_id(views(todos@), id) is None,
        },
{
    let mut i: usize = 0;
    while i < todos.len()
        invariant
            i <= todos.len(),
            forall|j: int| 0 <= j < i ==> (#[trigger] views(todos@)[j]).id != id,
        decreases todos.len() - i,
    {
        if todos[i].id == id {
            proof {
                assert(is_first_with_id(views(todos@), id, i as int));
            }
            return Some(i);
        }
        i += 1;
    }
    None
}

/// `items` with one more open item without dates at the end, whose id is
/// its place in the list.
pub open spec fn with_new(items: Seq<TodoView>, text: Seq<char>) -> Seq<TodoView> {
    items.push(TodoView::fresh((items.len() + 1) as usize, text))
}

/// Adds an open item without dates at the end. Its text is `words`
/// joined by single spaces, and its id is its place in the list.
pub fn add_item(todos: &mut Vec<Todo>, words: &Vec<String>) -> (outcome: Outcome)
    ensures
        views(final(todos)@) == with_new(views(old(todos)@), joined(texts(words@), " "@)),
        outcome@ == OutcomeView::Added,
{
    // The id is the length of the list once the item is in it, so that
    // length is read after the push.
    todos.push(Todo::new(0, join(words, " ")));
    let n = todos.len();
    todos[n - 1].id = n;
    assert(views(todos@) =~= with_new(views(old(todos)@), joined(texts(words@), " "@)));
    Outcome::Added
}

/// Marks the first item with the id `id` as done.
pub fn mark_done(todos: &mut Vec<Todo>, id: usize) -> (outcome: Outcome)
    ensures
        views(final(todos)@) == with_first(views(old(todos)@), id, marking_done()),
        outcome@ == found_or_not(views(old(todos)@), id, OutcomeView::MarkedDone),
{
    match position(todos, id) {
        Some(at) => {
            todos[at].done = true;
            assert(views(todos@) =~= views(old(todos)@).update(
                at as int,
                TodoView { done: true, ..old(todos)[at as int]@ },
            ));
            Outcome::MarkedDone
        },
        None => Outcome::NotFound { id },
    }
}

/// Clears the reminder of the first item with the id `id`.
pub fn clear_reminder(todos: &mut Vec<Todo>, id: usize) -> (outcome: Outcome)
    ensures
        views(final(todos)@) == with_first(views(old(todos)@), id, setting_reminder(None)),
        outcome@ == found_or_not(views(old(todos)@), id, (OutcomeView::ReminderCleared { id })),
{
    match position(todos, id) {
        Some(at) => {
            todos[at].reminder = None;
            assert(views(todos@) =~= views(old(todos)@).update(
                at as int,
                TodoView { reminder: None, ..old(todos)[at as int]@ },
            ));
            Outcome::ReminderCleared { id }
        },
        None => Outcome::NotFound { id },
    }
}

/// What [`begin_edit`] answers: the text of the first item with the id
/// `id` is to be edited, or no item has it.
pub open spec fn edit_request(items: Seq<TodoView>, id: usize) -> OutcomeView {
    match first_with_id(items, id) {
        Some(at) => OutcomeView::Edit { id, seed: items[at].text },
        None => OutcomeView::NotFound { id },
    }
}

/// Asks for the external editor on the text of the first item with the
/// id `id`. The list stays as it is.
pub fn begin_edit(todos: &Vec<Todo>, id: usize) -> (outcome: Outcome)
    ensures
        outcome@ == edit_request(views(todos@), id),
{
    match position(todos, id) {
        Some(at) => Outcome::Edit { id, seed: todos[at].text.clone() },
        None => Outcome::NotFound { id },
    }
}

/// `items` after the external editor left `content` for the text of the
/// first item with the id `id`: the trimmed text is stored, and where
/// nothing is left after trimming the edit is discarded and the items
/// stay as they were.
pub open spec fn with_edited_text(items: Seq<TodoView>, id: usize, content: Seq<char>) -> Seq<
    TodoView,
> {
    if trimmed(content).len() > 0 {
        with_first(items, id, setting_text(trimmed(content)))
    } else {
        items
    }
}

/// Puts what the external editor left, trimmed, in the place of the text
/// of the first item with the id `id`. Where nothing is left after
/// trimming, the edit is discarded and the text stays as it was. The
/// outcome says whether an item has the id, not whether its text
/// changed.
pub fn finish_edit(todos: &mut Vec<Todo>, id: usize, content: &str) -> (outcome: Outcome)
    ensures
        views(final(todos)@) == with_edited_text(views(old(todos)@), id, content@),
        trimmed(content@).len() == 0 ==> views(final(todos)@) == views(old(todos)@),
        outcome@ == found_or_not(views(old(todos)@), id, OutcomeView::Updated),
{
    let kept = content.trim();
    match position(todos, id) {
        Some(at) => {
            if !kept.is_empty() {
                todos[at].text = kept.to_owned();
                assert(views(todos@) =~= views(old(todos)@).update(
                    at as int,
                    TodoView { text: trimmed(content@), ..old(todos)[at as int]@ },
                ));
            }
            Outcome::Updated
        },
        None => Outcome::NotFound { id },
    }
}

/// Sets the due date of the first item with the id `id` to `date` as it
/// is written, where `parsed` shows that it is a date. The date is
/// looked at before the id.
pub fn set_due(
    todos: &mut Vec<Todo>,
    id: usize,
    date: String,
    parsed: Result<Date, FormatError>,
) -> (outcome: Outcome)
    ensures
        parsed is Err ==> {
            &&& views(final(todos)@) == views(old(todos)@)
            &&& outcome@ == OutcomeView::BadDate
        },
        parsed is Ok ==> {
            &&& views(final(todos)@) == with_first(
                views(old(todos)@),
                id,
                setting_due(Some(date@)),
            )
            &&& outcome@ == found_or_not(views(old(todos)@), id, (OutcomeView::DueSet { id }))
        },
{
    if parsed.is_err() {
        return Outcome::BadDate;
    }
    match position(todos, id) {
        Some(at) => {
            todos[at].due_date = Some(date);
            assert(views(todos@) =~= views(old(todos)@).update(
                at as int,
                TodoView { due_date: Some(date@), ..old(todos)[at as int]@ },
            ));
            Outcome::DueSet { id }
        },
        None => Outcome::NotFound { id },
    }
}

/// Whether `parsed` holds a day and a minute that exist.
pub open spec fn is_moment(parsed: Result<DateTime, FormatError>) -> bool {
    parsed matches Ok(at) && at.valid()
}

/// The text of the reminder for what was read of a date and a time:
/// the minute written as `YYYY-MM-DD HH:MM`, or none where no minute
/// that exists was read.
pub fn reminder_text(parsed: Result<DateTime, FormatError>) -> (text: Option<String>)
    ensures
        text is Some <==> is_moment(parsed),
        text matches Some(stamp) ==> stamp@ == parsed->Ok_0.stamp(),
{
    match parsed {
        Ok(at) => if at.is_valid() {
            Some(format_datetime(&at))
        } else {
            None
        },
        Err(_) => None,
    }
}

/// Sets the reminder of the first item with the id `id` to the minute
/// in `parsed`, written as `YYYY-MM-DD HH:MM`. The minute is looked at
/// before the id.
pub fn set_reminder(
    todos: &mut Vec<Todo>,
    id: usize,
    parsed: Result<DateTime, FormatError>,
) -> (outcome: Outcome)
    ensures
        !is_moment(parsed) ==> {
            &&& views(final(todos)@) == views(old(todos)@)
            &&& outcome@ == OutcomeView::BadDateTime
        },
        is_moment(parsed) ==> {
            &&& views(final(todos)@) == with_first(
                views(old(todos)@),
                id,
                setting_reminder(Some(parsed->Ok_0.stamp())),
            )
            &&& outcome@ == found_or_not(
                views(old(todos)@),
                id,
                (OutcomeView::ReminderSet { id }),
            )
        },
{
    let stamp = match reminder_text(parsed) {
        Some(stamp) => stamp,
        None => {
            return Outcome::BadDateTime;
        },
    };
    match position(todos, id) {
        Some(place) => {
            todos[place].reminder = Some(stamp);
            assert(views(todos@) =~= views(old(todos)@).update(
                place as int,
                TodoView { reminder: Some(parsed->Ok_0.stamp()), ..old(todos)[place as int]@ },
            ));
            Outcome::ReminderSet { id }
        },
        None => Outcome::NotFound { id },
    }
}

/// Whether an item has another id than `id`.
pub open spec fn other_than(id: usize) -> spec_fn(TodoView) -> bool {
    |t: TodoView| t.id != id
}

/// `items` without those that have the id `id`, numbered anew.
pub open spec fn without(items: Seq<TodoView>, id: usize) -> Seq<TodoView> {
    renumbered(items.filter(other_than(id)))
}

/// Deletes every item with the id `id` and numbers the rest anew.
pub fn delete(todos: &mut Vec<Todo>, id: usize) -> (outcome: Outcome)
    ensures
        views(final(todos)@) == without(views(old(todos)@), id),
        is_numbered(views(final(todos)@)),
        outcome@ == found_or_not(views(old(todos)@), id, (OutcomeView::Deleted { id })),
        final(todos).len() < old(todos).len() <==> first_with_id(views(old(todos)@), id) is Some,
{
    let before = todos.len();
    let ghost all = views(old(todos)@);
    let ghost keep = other_than(id);
    // `seen` items of the old list have been looked at. Those of them
    // that stay stand before `i`, and from `i` on stands the rest of the
    // old list.
    let ghost mut seen: int = 0;
    let mut i: usize = 0;
    proof {
        reveal(Seq::filter);
        assert(views(todos@).subrange(0, 0) =~= Seq::<TodoView>::empty());
    }
    while i < todos.len()
        invariant
            all == views(old(todos)@),
            keep == other_than(id),
            before == old(todos).len(),
            0 <= seen <= before,
            i <= todos.len(),
            todos.len() - i == before - seen,
            views(todos@).subrange(0, i as int) == all.subrange(0, seen).filter(keep),
            todos@.subrange(i as int, todos.len() as int) == old(todos)@.subrange(
                seen,
                before as int,
            ),
            (todos.len() < before) <==> (exists|j: int|
                0 <= j < seen && (#[trigger] all[j]).id == id),
        decreases todos.len() - i,
    {
        let ghost prev = todos@;
        proof {
            assert(prev[i as int] == prev.subrange(i as int, prev.len() as int)[0]);
            assert(prev[i as int] == old(todos)@[seen]);
            assert(all.subrange(0, seen + 1).drop_last() =~= all.subrange(0, seen));
            assert(all.subrange(0, seen + 1).last() == all[seen]);
            reveal(Seq::filter);
        }
        if todos[i].id == id {
            todos.remove(i);
            proof {
                assert(views(todos@).subrange(0, i as int) =~= views(prev).subrange(0, i as int));
                assert(todos@.subrange(i as int, todos.len() as int) =~= prev.subrange(
                    i as int,
                    prev.len() as int,
                ).drop_first());
                assert(old(todos)@.subrange(seen + 1, before as int) =~= old(todos)@.subrange(
                    seen,
                    before as int,
                ).drop_first());
                assert(all[seen].id == id);
                seen = seen + 1;
            }
        } else {
            proof {
                assert(views(prev).subrange(0, i + 1) =~= views(prev).subrange(0, i as int).push(
                    all[seen],
                ));
                assert(todos@.subrange(i + 1, todos.len() as int) =~= prev.subrange(
                    i as int,
                    prev.len() as int,
                ).drop_first());
                assert(old(todos)@.subrange(seen + 1, before as int) =~= old(todos)@.subrange(
                    seen,
                    before as int,
                ).drop_first());
                seen = seen + 1;
            }
            i += 1;
        }
    }
    proof {
        assert(seen == before);
        assert(all.subrange(0, before as int) =~= all);
        // The list got shorter exactly where an item had the id.
        if first_with_id(all, id) is Some {
            let at = first_with_id(all, id)->0;
            assert(is_first_with_id(all, id, at));
            assert(0 <= at < before && all[at].id == id);
        }
        if exists|j: int| 0 <= j < before && (#[trigger] all[j]).id == id {
            lemma_some_means_first(all, id);
        }
        assert((todos.len() < before) <==> first_with_id(all, id) is Some);
    }
    let after = todos.len();
    renumber(todos);
    assert(todos.len() == after) by {
        assert(views(todos@).len() == after);
    }
    if after < before {
        Outcome::Deleted { id }
    } else {
        Outcome::NotFound { id }
    }
}

/// Where some item has the id `id`, one of them is the first.
pub proof fn lemma_some_means_first(items: Seq<TodoView>, id: usize)
    requires
        exists|j: int| 0 <= j < items.len() && (#[trigger] items[j]).id == id,
    ensures
        first_with_id(items, id) is Some,
        is_first_with_id(items, id, first_with_id(items, id)->0),
{
    let j = choose|j: int| 0 <= j < items.len() && (#[trigger] items[j]).id == id;
    lemma_first_up_to(items, id, j);
}

/// Where the item at `j` has the id `id`, some item at or before `j` is
/// the first to have it.
proof fn lemma_first_up_to(items: Seq<TodoView>, id: usize, j: int)
    requires
        0 <= j < items.len(),
        items[j].id == id,
    ensures
        exists|at: int| is_first_with_id(items, id, at),
    decreases j,
{
    if exists|k: int| 0 <= k < j && (#[trigger] items[k]).id == id {
        let k = choose|k: int| 0 <= k < j && (#[trigger] items[k]).id == id;
        lemma_first_up_to(items, id, k);
    } else {
        assert(is_first_with_id(items, id, j));
    }
}

/// One row of the list as the command line shows it.
pub open spec fn list_row(t: TodoView) -> Seq<char> {
    "["@ + (if t.done {
        "✓"@
    } else {
        " "@
    }) + "] "@ + decimal(t.id as nat) + ": "@ + t.text + " (Due: "@ + text_or(
        t.due_date,
        "No due date"@,
    ) + ", Reminder: "@ + text_or(t.reminder, "No reminder"@) + ")"@
}

/// The row that the command line shows for `todo`.
pub fn format_todo(todo: &Todo) -> (row: String)
    ensures
        row@ == list_row(todo@),
{
    let mut row = "[".to_owned();
    if todo.done {
        row.append("✓");
    } else {
        row.append(" ");
    }
    row.append("] ");
    push_decimal(&mut row, todo.id);
    row.append(": ");
    row.append(todo.text.as_str());
    row.append(" (Due: ");
    append_or(&mut row, &todo.due_date, "No due date");
    row.append(", Reminder: ");
    append_or(&mut row, &todo.reminder, "No reminder");
    row.append(")");
    row
}

/// What [`list`] answers: the rows of all items, in order.
pub open spec fn listing(items: Seq<TodoView>) -> OutcomeView {
    OutcomeView::Listed { rows: items.map_values(|t: TodoView| list_row(t)) }
}

/// Lists all items, one row each. The list stays as it is.
pub fn list(todos: &Vec<Todo>) -> (outcome: Outcome)
    ensures
        outcome@ == listing(views(todos@)),
{
    let mut rows: Vec<String> = Vec::new();
    let mut i: usize = 0;
    while i < todos.len()
        invariant
            i <= todos.len(),
            rows.len() == i,
            forall|j: int| 0 <= j < i ==> (#[trigger] rows[j])@ == list_row(todos[j]@),
        decreases todos.len() - i,
    {
        rows.push(format_todo(&todos[i]));
        i += 1;
    }
    assert(texts(rows@) =~= views(todos@).map_values(|t: TodoView| list_row(t)));
    Outcome::Listed { rows }
}

/// What has to hold of the list and of the outcome after `cmd`.
pub open spec fn handled(
    cmd: Commands,
    before: Seq<TodoView>,
    after: Seq<TodoView>,
    outcome: OutcomeView,
) -> bool {
    match cmd {
        Commands::Add { text } => {
            &&& after == with_new(before, joined(texts(text@), " "@))
            &&& outcome == OutcomeView::Added
        },
        Commands::Done { id } => {
            &&& after == with_first(before, id, marking_done())
            &&& outcome == found_or_not(before, id, OutcomeView::MarkedDone)
        },
        Commands::Edit { id } => {
            &&& after == before
            &&& outcome == edit_request(before, id)
        },
        Commands::Delete { id } => {
            &&& after == without(before, id)
            &&& outcome == found_or_not(before, id, OutcomeView::Deleted { id })
        },
        Commands::List => {
            &&& after == before
            &&& outcome == listing(before)
        },
        Commands::Tui => {
            &&& after == before
            &&& outcome == OutcomeView::Screen
        },
        Commands::Due { id, date } => {
            if date_in(date@) is Some {
                &&& after == with_first(before, id, setting_due(Some(date@)))
                &&& outcome == found_or_not(before, id, OutcomeView::DueSet { id })
            } else {
                &&& after == before
                &&& outcome == OutcomeView::BadDate
            }
        },
        Commands::Remind { id, date, time } => {
            match date_and_time(date_in(date@), time_in(time@)) {
                Ok(at) => {
                    &&& after == with_first(before, id, setting_reminder(Some(at.stamp())))
                    &&& outcome == found_or_not(before, id, OutcomeView::ReminderSet { id })
                },
                Err(_) => {
                    &&& after == before
                    &&& outcome == OutcomeView::BadDateTime
                },
            }
        },
        Commands::Upcoming => {
            &&& after == before
            &&& exists|now: DateTime| now.valid() && #[trigger] shows_upcoming(before, now, outcome)
        },
        Commands::ClearReminder { id } => {
            &&& after == with_first(before, id, setting_reminder(None))
            &&& outcome == found_or_not(before, id, OutcomeView::ReminderCleared { id })
        },
    }
}

/// Carries out `cmd` on the list. Where the outcome asks for the
/// external editor or for the interactive list editor, the list is as
/// it was, and the caller has that work done.
pub fn handle_json_commands(cmd: Commands, todos: &mut Vec<Todo>) -> (outcome: Outcome)
    ensures
        handled(cmd, views(old(todos)@), views(final(todos)@), outcome@),
{
    match cmd {
        Commands::Add { text } => add_item(todos, &text),
        Commands::Done { id } => mark_done(todos, id),
        Commands::Edit { id } => begin_edit(todos, id),
        Commands::Delete { id } => delete(todos, id),
        Commands::List => list(todos),
        Commands::Tui => Outcome::Screen,
        Commands::Due { id, date } => {
            let parsed = validate_date(date.as_str());
            set_due(todos, id, date, parsed)
        },
        Commands::Remind { id, date, time } => {
            let parsed = validate_datetime(date.as_str(), time.as_str());
            set_reminder(todos, id, parsed)
        },
        Commands::Upcoming => upcoming(todos),
        Commands::ClearReminder { id } => clear_reminder(todos, id),
    }
}

} // verus!
