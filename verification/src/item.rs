//! The unit of work that the tracker keeps, and lists of them.

use vstd::prelude::*;

verus! {

/// A single task.
///
/// `id` is the item's place in its list, counted from one. It is no
/// lasting name: it is given anew whenever the list is renumbered.
#[derive(Debug, PartialEq, Eq)]
pub struct Todo {
    pub id: usize,
    pub text: String,
    pub done: bool,
    /// A date, written `YYYY-MM-DD`.
    pub due_date: Option<String>,
    /// A date and a time, written `YYYY-MM-DD HH:MM`.
    pub reminder: Option<String>,
}

/// What a [`Todo`] holds, as plain values.
pub struct TodoView {
    pub id: usize,
    pub text: Seq<char>,
    pub done: bool,
    pub due_date: Option<Seq<char>>,
    pub reminder: Option<Seq<char>>,
}

/// The characters of an optional text.
pub open spec fn opt_text(field: Option<String>) -> Option<Seq<char>> {
    match field {
        Some(s) => Some(s@),
        None => None,
    }
}

impl View for Todo {
    type V = TodoView;

    open spec fn view(&self) -> TodoView {
        TodoView {
            id: self.id,
            text: self.text@,
            done: self.done,
            due_date: opt_text(self.due_date),
            reminder: opt_text(self.reminder),
        }
    }
}

/// The views of the items of a list, in order.
pub open spec fn views(todos: Seq<Todo>) -> Seq<TodoView> {
    todos.map_values(|t: Todo| t@)
}

impl TodoView {
    /// An open item without dates.
    pub open spec fn fresh(id: usize, text: Seq<char>) -> TodoView {
        TodoView { id, text, done: false, due_date: None, reminder: None }
    }
}

/// A copy of an optional text.
pub fn copy_opt_text(field: &Option<String>) -> (r: Option<String>)
    ensures
        opt_text(r) == opt_text(*field),
{
    match field {
        Some(s) => Some(s.clone()),
        None => None,
    }
}

impl Todo {
    /// A fresh, open task without dates.
    pub fn new(id: usize, text: String) -> (t: Todo)
        ensures
            t@ == TodoView::fresh(id, text@),
    {
        Todo { id, text, done: false, due_date: None, reminder: None }
    }
}

impl Clone for Todo {
    fn clone(&self) -> (r: Todo)
        ensures
            r@ == self@,
    {
        Todo {
            id: self.id,
            text: self.text.clone(),
            done: self.done,
            due_date: copy_opt_text(&self.due_date),
            reminder: copy_opt_text(&self.reminder),
        }
    }
}

/// Whether each item's `id` is its place in the list, counted from one.
pub open spec fn is_numbered(items: Seq<TodoView>) -> bool {
    forall|i: int| 0 <= i < items.len() ==> (#[trigger] items[i]).id == i + 1
}

/// `items` with each `id` set to the item's place, counted from one.
pub open spec fn renumbered(items: Seq<TodoView>) -> Seq<TodoView> {
    Seq::new(items.len(), |i: int| TodoView { id: (i + 1) as usize, ..items[i] })
}

/// Gives each item its place in the list as its `id`, counted from one.
/// Nothing else changes.
pub fn renumber(todos: &mut Vec<Todo>)
    ensures
        views(final(todos)@) == renumbered(views(old(todos)@)),
        is_numbered(views(final(todos)@)),
{
    let n = todos.len();
    let mut i: usize = 0;
    while i < n
        invariant
            i <= n,
            todos.len() == n,
            old(todos).len() == n,
            forall|j: int|
                0 <= j < i ==> (#[trigger] todos[j])@ == renumbered(views(old(todos)@))[j],
            forall|j: int| i <= j < n ==> #[trigger] todos[j] == old(todos)[j],
        decreases n - i,
    {
        todos[i].id = i + 1;
        i += 1;
    }
}

} // verus!
