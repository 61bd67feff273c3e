//! The reminders that lie ahead: which items still remind after a given
//! minute, and in which order they are listed.

use vstd::prelude::*;
use vstd::string::StringExecFns;
use crate::commands::{Outcome, OutcomeView};
use crate::dates::{DateTime, datetime_in, format_datetime, local_now, read_reminder};
use crate::item::{Todo, TodoView, views};
use crate::text::{decimal, push_decimal, texts};

verus! {

/// A reminder that lies ahead: the place of its item in the list, and
/// its minute.
#[derive(Clone, Copy, Debug, PartialEq, Eq, Structural)]
pub struct Pending {
    pub index: usize,
    pub at: DateTime,
}

/// The minute at which an item reminds, as far as it still counts: none
/// for an item that is done, that has no reminder, or whose reminder
/// `chrono` does not read as `YYYY-MM-DD HH:MM`.
pub open spec fn reminder_time(t: TodoView) -> Option<DateTime> {
    if t.done {
        None
    } else {
        match t.reminder {
            Some(text) => datetime_in(text),
            None => None,
        }
    }
}

/// Whether the entry at `i` is a minute after `now`.
pub open spec fn lies_ahead(times: Seq<Option<DateTime>>, now: DateTime, i: int) -> bool {
    &&& 0 <= i < times.len()
    &&& times[i] matches Some(at)
    &&& at.after(now)
}

/// The order of pending reminders: the earlier minute first, and of two
/// at the same minute the one that stands first in the list.
pub open spec fn comes_before(a: Pending, b: Pending) -> bool {
    b.at.after(a.at) || (a.at == b.at && a.index < b.index)
}

/// `picked` holds exactly the entries of `times` that lie after `now`,
/// each once and with its minute, in the order of [`comes_before`].
pub open spec fn is_upcoming(
    times: Seq<Option<DateTime>>,
    now: DateTime,
    picked: Seq<Pending>,
) -> bool {
    &&& forall|k: int|
        0 <= k < picked.len() ==> lies_ahead(times, now, (#[trigger] picked[k]).index as int)
            && times[picked[k].index as int] == Some(picked[k].at)
    &&& forall|i: int|
        lies_ahead(times, now, i) ==> exists|k: int|
            0 <= k < picked.len() && (#[trigger] picked[k]).index == i
    &&& forall|j: int, k: int|
        0 <= j < k < picked.len() ==> comes_before(#[trigger] picked[j], #[trigger] picked[k])
}

/// The minute at which each item reminds, in the order of the list.
pub fn reminder_times(todos: &Vec<Todo>) -> (times: Vec<Option<DateTime>>)
    ensures
        times.len() == todos.len(),
        forall|i: int| 0 <= i < times.len() ==> #[trigger] times[i] == reminder_time(todos[i]@),
        forall|i: int|
            0 <= i < times.len() ==> ((#[trigger] times[i]) matches Some(at) ==> at.valid()),
{
    let mut times: Vec<Option<DateTime>> = Vec::new();
    let mut i: usize = 0;
    while i < todos.len()
        invariant
            i <= todos.len(),
            times.len() == i,
            forall|j: int| 0 <= j < i ==> #[trigger] times[j] == reminder_time(todos[j]@),
            forall|j: int| 0 <= j < i ==> ((#[trigger] times[j]) matches Some(at) ==> at.valid()),
        decreases todos.len() - i,
    {
        let time = if todos[i].done {
            None
        } else {
            match &todos[i].reminder {
                Some(text) => read_reminder(text.as_str()),
                None => None,
            }
        };
        times.push(time);
        i += 1;
    }
    times
}

/// Picks the entries of `times` that lie after `now` and puts them in
/// order: the earlier minute first, and of two at the same minute the
/// one that stands first in `times`.
pub fn pick_upcoming(times: &Vec<Option<DateTime>>, now: &DateTime) -> (picked: Vec<Pending>)
    ensures
        is_upcoming(times@, *now, picked@),
{
    let mut picked: Vec<Pending> = Vec::new();
    let mut i: usize = 0;
    while i < times.len()
        invariant
            i <= times.len(),
            is_upcoming(times@.subrange(0, i as int), *now, picked@),
        decreases times.len() - i,
    {
        let ghost seen = times@.subrange(0, i as int);
        let ghost next = times@.subrange(0, i + 1);
        let ghost before = picked@;
        proof {
            // What was picked of the entries before `i` stays picked.
            assert forall|k: int| 0 <= k < before.len() implies lies_ahead(
                next,
                *now,
                (#[trigger] before[k]).index as int,
            ) && next[before[k].index as int] == Some(before[k].at) by {}
            assert forall|j: int| lies_ahead(next, *now, j) && j < i implies lies_ahead(
                seen,
                *now,
                j,
            ) by {}
        }
        let found = match times[i] {
            Some(at) => if at.is_after(now) {
                Some(at)
            } else {
                None
            },
            None => None,
        };
        match found {
            Some(at) => {
                // The new entry goes behind all that are no later than it.
                let mut place: usize = picked.len();
                while place > 0 && picked[place - 1].at.is_after(&at)
                    invariant
                        place <= picked.len(),
                        forall|k: int|
                            place <= k < picked.len() ==> (#[trigger] picked[k]).at.after(at),
                    decreases place,
                {
                    place -= 1;
                }
                let entry = Pending { index: i, at };
                picked.insert(place, entry);
                proof {
                    let after = picked@;
                    assert forall|k: int| 0 <= k < place implies comes_before(
                        #[trigger] before[k],
                        entry,
                    ) by {}
                    assert forall|j: int, k: int| 0 <= j < k < after.len() implies comes_before(
                        #[trigger] after[j],
                        #[trigger] after[k],
                    ) by {}
                    assert forall|j: int| lies_ahead(next, *now, j) implies exists|k: int|
                        0 <= k < after.len() && (#[trigger] after[k]).index == j by {
                        if j < i {
                            let k0 = choose|k: int|
                                0 <= k < before.len() && (#[trigger] before[k]).index == j;
                            if k0 < place {
                                assert(after[k0].index == j);
                            } else {
                                assert(after[k0 + 1].index == j);
                            }
                        } else {
                            assert(after[place as int].index == j);
                        }
                    }
                }
            },
            None => {},
        }
        i += 1;
    }
    assert(times@.subrange(0, times.len() as int) =~= times@);
    picked
}

/// Without its first entry, a list of the reminders that lie ahead is
/// the list for the same minutes with that entry's minute taken out.
proof fn lemma_rest_is_upcoming(times: Seq<Option<DateTime>>, now: DateTime, picked: Seq<Pending>)
    requires
        is_upcoming(times, now, picked),
        picked.len() > 0,
    ensures
        is_upcoming(times.update(picked[0].index as int, None), now, picked.drop_first()),
{
    let first = picked[0];
    let rest = picked.drop_first();
    let fewer = times.update(first.index as int, None);
    assert forall|k: int| 0 <= k < rest.len() implies lies_ahead(
        fewer,
        now,
        (#[trigger] rest[k]).index as int,
    ) && fewer[rest[k].index as int] == Some(rest[k].at) by {
        // No later entry has the index of the first: it would have its
        // minute too, and come before itself.
        assert(comes_before(picked[0], picked[k + 1]));
    }
    assert forall|i: int| lies_ahead(fewer, now, i) implies exists|k: int|
        0 <= k < rest.len() && (#[trigger] rest[k]).index == i by {
        assert(lies_ahead(times, now, i));
        let k0 = choose|k: int| 0 <= k < picked.len() && (#[trigger] picked[k]).index == i;
        assert(rest[k0 - 1] == picked[k0]);
    }
    assert forall|j: int, k: int| 0 <= j < k < rest.len() implies comes_before(
        #[trigger] rest[j],
        #[trigger] rest[k],
    ) by {
        assert(comes_before(picked[j + 1], picked[k + 1]));
    }
}

/// The minutes and the present minute decide the list of the reminders
/// that lie ahead: two lists that both are one are the same.
pub proof fn lemma_upcoming_is_unique(
    times: Seq<Option<DateTime>>,
    now: DateTime,
    a: Seq<Pending>,
    b: Seq<Pending>,
)
    requires
        is_upcoming(times, now, a),
        is_upcoming(times, now, b),
    ensures
        a == b,
    decreases a.len(),
{
    if a.len() == 0 || b.len() == 0 {
        // An entry of the one would have to be in the other.
        if a.len() > 0 {
            assert(lies_ahead(times, now, a[0].index as int));
        }
        if b.len() > 0 {
            assert(lies_ahead(times, now, b[0].index as int));
        }
        assert(a =~= b);
    } else {
        // Each first entry is in the other list. Were it not the first
        // there, each would come before the other.
        assert(lies_ahead(times, now, a[0].index as int));
        assert(lies_ahead(times, now, b[0].index as int));
        let k = choose|k: int| 0 <= k < b.len() && (#[trigger] b[k]).index == a[0].index;
        let j = choose|j: int| 0 <= j < a.len() && (#[trigger] a[j]).index == b[0].index;
        assert(b[k] == a[0] && a[j] == b[0]);
        if k > 0 && j > 0 {
            assert(comes_before(b[0], b[k]) && comes_before(a[0], a[j]));
        }
        assert(a[0] == b[0]);
        lemma_rest_is_upcoming(times, now, a);
        lemma_rest_is_upcoming(times, now, b);
        lemma_upcoming_is_unique(
            times.update(a[0].index as int, None),
            now,
            a.drop_first(),
            b.drop_first(),
        );
        assert(a =~= seq![a[0]] + a.drop_first());
        assert(b =~= seq![b[0]] + b.drop_first());
    }
}

/// One row of the list of reminders that lie ahead.
pub open spec fn upcoming_row(t: TodoView, at: DateTime) -> Seq<char> {
    "["@ + decimal(t.id as nat) + "] "@ + t.text + " - Due: "@ + at.stamp()
}

/// The minutes at which the items remind, in the order of the list.
pub open spec fn reminder_times_of(items: Seq<TodoView>) -> Seq<Option<DateTime>> {
    items.map_values(|t: TodoView| reminder_time(t))
}

/// `outcome` lists the reminders of `items` that lie after `now`: for
/// each one row, the earlier minute first, and of two at the same
/// minute the one whose item stands first in the list.
pub open spec fn shows_upcoming(items: Seq<TodoView>, now: DateTime, outcome: OutcomeView) -> bool {
    &&& outcome is Upcoming
    &&& exists|picked: Seq<Pending>| #[trigger]
        is_upcoming(reminder_times_of(items), now, picked) && outcome->Upcoming_rows
            == picked.map_values(|p: Pending| upcoming_row(items[p.index as int], p.at))
}

/// The row of the reminder of `todo` at the minute `at`.
fn format_upcoming(todo: &Todo, at: &DateTime) -> (row: String)
    requires
        at.valid(),
    ensures
        row@ == upcoming_row(todo@, *at),
{
    let mut row = "[".to_owned();
    push_decimal(&mut row, todo.id);
    row.append("] ");
    row.append(todo.text.as_str());
    row.append(" - Due: ");
    let stamp = format_datetime(at);
    row.append(stamp.as_str());
    row
}

/// Lists the reminders that lie after `now`, the nearest first. An item
/// that is done does not count, nor one whose reminder is not of the
/// form `YYYY-MM-DD HH:MM`. The list stays as it is.
pub fn upcoming_at(todos: &Vec<Todo>, now: &DateTime) -> (outcome: Outcome)
    ensures
        shows_upcoming(views(todos@), *now, outcome@),
{
    let times = reminder_times(todos);
    let picked = pick_upcoming(&times, now);
    assert(times@ =~= reminder_times_of(views(todos@)));
    let mut rows: Vec<String> = Vec::new();
    let mut k: usize = 0;
    while k < picked.len()
        invariant
            k <= picked.len(),
            rows.len() == k,
            times.len() == todos.len(),
            is_upcoming(times@, *now, picked@),
            forall|i: int|
                0 <= i < times.len() ==> ((#[trigger] times[i]) matches Some(at) ==> at.valid()),
            forall|j: int|
                0 <= j < k ==> (#[trigger] rows[j])@ == upcoming_row(
                    todos[picked[j].index as int]@,
                    picked[j].at,
                ),
        decreases picked.len() - k,
    {
        let entry = picked[k];
        rows.push(format_upcoming(&todos[entry.index], &entry.at));
        k += 1;
    }
    proof {
        let items = views(todos@);
        assert(texts(rows@) =~= picked@.map_values(
            |p: Pending| upcoming_row(items[p.index as int], p.at),
        ));
    }
    Outcome::Upcoming { rows }
}

/// Lists the reminders that lie after the present minute of the local
/// time, the nearest first. A reminder has no seconds, so it lies after
/// the present instant exactly when its minute lies after the present
/// minute. The list stays as it is.
pub fn upcoming(todos: &Vec<Todo>) -> (outcome: Outcome)
    ensures
        exists|now: DateTime|
            now.valid() && #[trigger] shows_upcoming(views(todos@), now, outcome@),
{
    let now = local_now();
    upcoming_at(todos, &now)
}

} // verus!
