//! The interactive list editor: what each key does to the list and to the
//! selection, and what is asked of the terminal in return.
//!
//! The editor is a machine with two states. While it is viewing, each key
//! is answered at once. A key that edits a text field asks for the
//! external editor and leaves the machine editing, until the editor's
//! result is handed in with [`Session::resume`].

use vstd::prelude::*;
use vstd::string::StringExecFns;
use crate::item::{Todo, TodoView, is_numbered, opt_text, renumber, renumbered, views};
use crate::text::{append_or, text_or, trimmed};

verus! {

/// How long one wait for a key lasts, in milliseconds.
pub const POLL_MILLIS: u64 = 100;

/// A key as the terminal reports it.
#[derive(Clone, Copy, Debug, PartialEq, Eq, Structural)]
pub enum Key {
    Char(char),
    Up,
    Down,
    Other,
}

/// What a key asks for.
#[derive(Clone, Copy, Debug, PartialEq, Eq, Structural)]
pub enum Intent {
    Quit,
    Down,
    Up,
    Toggle,
    Delete,
    EditText,
    Add,
    SetDue,
    SetReminder,
    ClearReminder,
    Nothing,
}

/// The text field that an edit is about.
#[derive(Clone, Copy, Debug, PartialEq, Eq, Structural)]
pub enum Field {
    /// The text of the selected item.
    Text,
    /// The text of an item that is about to be added.
    NewItem,
    /// The due date of the selected item.
    DueDate,
    /// The reminder of the selected item.
    Reminder,
}

/// What the terminal loop has to do after a key.
#[derive(Debug, PartialEq, Eq)]
pub enum Action {
    /// Draw the list and wait for the next key.
    Continue,
    /// Leave the loop and hand the list back.
    Quit,
    /// Run the external editor on `seed`, then hand its result to
    /// [`Session::resume`].
    Edit { field: Field, seed: String },
}

/// An [`Action`] as plain values.
pub enum ActionView {
    Continue,
    Quit,
    Edit { field: Field, seed: Seq<char> },
}

impl View for Action {
    type V = ActionView;

    open spec fn view(&self) -> ActionView {
        match *self {
            Action::Continue => ActionView::Continue,
            Action::Quit => ActionView::Quit,
            Action::Edit { field, seed } => ActionView::Edit { field, seed: seed@ },
        }
    }
}

/// The key bindings.
pub open spec fn binding(key: Key) -> Intent {
    match key {
        Key::Up => Intent::Up,
        Key::Down => Intent::Down,
        Key::Other => Intent::Nothing,
        Key::Char(c) => if c == 'q' {
            Intent::Quit
        } else if c == ' ' {
            Intent::Toggle
        } else if c == 'd' {
            Intent::Delete
        } else if c == 'e' {
            Intent::EditText
        } else if c == 'a' {
            Intent::Add
        } else if c == 't' {
            Intent::SetDue
        } else if c == 'r' {
            Intent::SetReminder
        } else if c == 'c' {
            Intent::ClearReminder
        } else {
            Intent::Nothing
        },
    }
}

impl Key {
    /// What this key asks for.
    pub fn intent(self) -> (i: Intent)
        ensures
            i == binding(self),
    {
        match self {
            Key::Up => Intent::Up,
            Key::Down => Intent::Down,
            Key::Other => Intent::Nothing,
            Key::Char(c) => if c == 'q' {
                Intent::Quit
            } else if c == ' ' {
                Intent::Toggle
            } else if c == 'd' {
                Intent::Delete
            } else if c == 'e' {
                Intent::EditText
            } else if c == 'a' {
                Intent::Add
            } else if c == 't' {
                Intent::SetDue
            } else if c == 'r' {
                Intent::SetReminder
            } else if c == 'c' {
                Intent::ClearReminder
            } else {
                Intent::Nothing
            },
        }
    }
}

/// The state of the editor as plain values.
pub struct SessionView {
    pub items: Seq<TodoView>,
    pub selected: nat,
    /// The field whose edit is under way, if the machine is editing.
    pub editing: Option<Field>,
}

/// The text that an optional field shows in the editor.
pub open spec fn seed_of(field: Option<Seq<char>>) -> Seq<char> {
    match field {
        Some(s) => s,
        None => Seq::empty(),
    }
}

/// What a trimmed editor result makes of an optional field.
pub open spec fn field_of(kept: Seq<char>) -> Option<Seq<char>> {
    if kept.len() > 0 {
        Some(kept)
    } else {
        None
    }
}

impl SessionView {
    /// The state in which a session starts.
    pub open spec fn start(items: Seq<TodoView>) -> SessionView {
        SessionView { items, selected: 0, editing: None }
    }

    /// The selection points at an item, or the list is empty and the
    /// selection rests at zero.
    pub open spec fn wf(self) -> bool {
        if self.items.len() == 0 {
            self.selected == 0
        } else {
            self.selected < self.items.len()
        }
    }

    /// Whether there is an item at the selection.
    pub open spec fn has_current(self) -> bool {
        self.selected < self.items.len()
    }

    /// The item at the selection.
    pub open spec fn current(self) -> TodoView
        recommends
            self.has_current(),
    {
        self.items[self.selected as int]
    }

    /// This state with `item` in the place of the selected item.
    pub open spec fn with_current(self, item: TodoView) -> SessionView
        recommends
            self.has_current(),
    {
        SessionView { items: self.items.update(self.selected as int, item), ..self }
    }

    /// The state after `intent`.
    pub open spec fn after(self, intent: Intent) -> SessionView {
        if self.editing is Some {
            self
        } else {
            match intent {
                Intent::Quit | Intent::Nothing => self,
                Intent::Down => if self.selected + 1 < self.items.len() {
                    SessionView { selected: self.selected + 1, ..self }
                } else {
                    self
                },
                Intent::Up => if self.selected > 0 {
                    SessionView { selected: (self.selected - 1) as nat, ..self }
                } else {
                    self
                },
                Intent::Toggle => if self.has_current() {
                    self.with_current(TodoView { done: !self.current().done, ..self.current() })
                } else {
                    self
                },
                Intent::Delete => if self.has_current() {
                    SessionView {
                        items: self.items.remove(self.selected as int),
                        selected: if self.selected > 0 {
                            (self.selected - 1) as nat
                        } else {
                            0
                        },
                        ..self
                    }
                } else {
                    self
                },
                Intent::ClearReminder => if self.has_current() {
                    self.with_current(TodoView { reminder: None, ..self.current() })
                } else {
                    self
                },
                Intent::EditText => if self.has_current() {
                    SessionView { editing: Some(Field::Text), ..self }
                } else {
                    self
                },
                Intent::SetDue => if self.has_current() {
                    SessionView { editing: Some(Field::DueDate), ..self }
                } else {
                    self
                },
                Intent::SetReminder => if self.has_current() {
                    SessionView { editing: Some(Field::Reminder), ..self }
                } else {
                    self
                },
                Intent::Add => SessionView { editing: Some(Field::NewItem), ..self },
            }
        }
    }

    /// What `intent` asks of the terminal loop.
    pub open spec fn request(self, intent: Intent) -> ActionView {
        if self.editing is Some {
            ActionView::Continue
        } else {
            match intent {
                Intent::Quit => ActionView::Quit,
                Intent::EditText if self.has_current() => ActionView::Edit {
                    field: Field::Text,
                    seed: self.current().text,
                },
                Intent::SetDue if self.has_current() => ActionView::Edit {
                    field: Field::DueDate,
                    seed: seed_of(self.current().due_date),
                },
                Intent::SetReminder if self.has_current() => ActionView::Edit {
                    field: Field::Reminder,
                    seed: seed_of(self.current().reminder),
                },
                Intent::Add => ActionView::Edit { field: Field::NewItem, seed: Seq::empty() },
                _ => ActionView::Continue,
            }
        }
    }

    /// The state after the external editor has returned. `outcome` is
    /// what the scratch file held, or `None` when the editor failed.
    pub open spec fn resumed(self, outcome: Option<Seq<char>>) -> SessionView {
        let back = SessionView { editing: None, ..self };
        match (self.editing, outcome) {
            (Some(field), Some(content)) => {
                let kept = trimmed(content);
                match field {
                    Field::Text => if back.has_current() && kept.len() > 0 {
                        back.with_current(TodoView { text: kept, ..back.current() })
                    } else {
                        back
                    },
                    Field::DueDate => if back.has_current() {
                        back.with_current(TodoView { due_date: field_of(kept), ..back.current() })
                    } else {
                        back
                    },
                    Field::Reminder => if back.has_current() {
                        back.with_current(TodoView { reminder: field_of(kept), ..back.current() })
                    } else {
                        back
                    },
                    Field::NewItem => if kept.len() > 0 {
                        SessionView {
                            items: back.items.push(
                                TodoView::fresh((back.items.len() + 1) as usize, kept),
                            ),
                            selected: back.items.len(),
                            ..back
                        }
                    } else {
                        back
                    },
                }
            },
            _ => back,
        }
    }
}

/// One row of the list as the screen shows it.
pub open spec fn row_text(t: TodoView) -> Seq<char> {
    (if t.done {
        "[x]"@
    } else {
        "[ ]"@
    }) + " "@ + t.text + " (Due: "@ + text_or(t.due_date, "No due date"@) + ", Reminder: "@
        + text_or(t.reminder, "No reminder"@) + ")"@
}

/// The row that the screen shows for `todo`.
pub fn format_todo(todo: &Todo) -> (row: String)
    ensures
        row@ == row_text(todo@),
{
    let mut row = if todo.done {
        "[x]".to_owned()
    } else {
        "[ ]".to_owned()
    };
    row.append(" ");
    row.append(todo.text.as_str());
    row.append(" (Due: ");
    append_or(&mut row, &todo.due_date, "No due date");
    row.append(", Reminder: ");
    append_or(&mut row, &todo.reminder, "No reminder");
    row.append(")");
    row
}

/// The line above the list, which names the keys.
pub const HELP_LINE: &'static str =
    "↑↓ move • Space toggle • a add • e edit • d delete • t due date • r reminder • c clear reminder • q quit";

/// A running session of the list editor.
pub struct Session {
    todos: Vec<Todo>,
    selected: usize,
    editing: Option<Field>,
}

impl View for Session {
    type V = SessionView;

    closed spec fn view(&self) -> SessionView {
        SessionView {
            items: views(self.todos@),
            selected: self.selected as nat,
            editing: self.editing,
        }
    }
}

impl Session {
    /// Starts a session on `todos`, with the first item selected.
    pub fn new(todos: Vec<Todo>) -> (s: Session)
        ensures
            s@ == SessionView::start(views(todos@)),
            s@.wf(),
    {
        Session { todos, selected: 0, editing: None }
    }

    /// The index of the selected row.
    pub fn selected(&self) -> (at: usize)
        ensures
            at == self@.selected,
    {
        self.selected
    }

    /// The number of items.
    pub fn len(&self) -> (n: usize)
        ensures
            n == self@.items.len(),
    {
        self.todos.len()
    }

    /// The field whose edit is under way, if any.
    pub fn editing(&self) -> (field: Option<Field>)
        ensures
            field == self@.editing,
    {
        self.editing
    }

    /// The items as they stand.
    pub fn todos(&self) -> (todos: &Vec<Todo>)
        ensures
            views(todos@) == self@.items,
    {
        &self.todos
    }

    /// The rows of the list, one for each item.
    pub fn rows(&self) -> (rows: Vec<String>)
        ensures
            rows.len() == self@.items.len(),
            forall|i: int|
                0 <= i < rows.len() ==> (#[trigger] rows[i])@ == row_text(self@.items[i]),
    {
        let mut rows: Vec<String> = Vec::new();
        let mut i: usize = 0;
        while i < self.todos.len()
            invariant
                i <= self.todos.len(),
                rows.len() == i,
                forall|j: int| 0 <= j < i ==> (#[trigger] rows[j])@ == row_text(self.todos[j]@),
            decreases self.todos.len() - i,
        {
            rows.push(format_todo(&self.todos[i]));
            i += 1;
        }
        rows
    }

    /// Answers one key.
    pub fn press(&mut self, key: Key) -> (action: Action)
        ensures
            final(self)@ == old(self)@.after(binding(key)),
            action@ == old(self)@.request(binding(key)),
            old(self)@.wf() ==> final(self)@.wf(),
    {
        self.apply(key.intent())
    }

    /// Does what `intent` asks for. While an edit is under way no key is
    /// read; an intent that arrives then changes nothing.
    pub fn apply(&mut self, intent: Intent) -> (action: Action)
        ensures
            final(self)@ == old(self)@.after(intent),
            action@ == old(self)@.request(intent),
            old(self)@.wf() ==> final(self)@.wf(),
    {
        if self.editing.is_some() {
            return Action::Continue;
        }
        let at = self.selected;
        let count = self.todos.len();
        match intent {
            Intent::Quit => Action::Quit,
            Intent::Nothing => Action::Continue,
            Intent::Down => {
                if count > 0 && at < count - 1 {
                    self.selected = at + 1;
                }
                Action::Continue
            },
            Intent::Up => {
                if at > 0 {
                    self.selected = at - 1;
                }
                Action::Continue
            },
            Intent::Toggle => {
                if at < count {
                    self.todos[at].done = !self.todos[at].done;
                    assert(self@.items =~= old(self)@.after(intent).items);
                }
                Action::Continue
            },
            Intent::Delete => {
                if at < count {
                    self.todos.remove(at);
                    if at > 0 {
                        self.selected = at - 1;
                    }
                    assert(self@.items =~= old(self)@.after(intent).items);
                }
                Action::Continue
            },
            Intent::ClearReminder => {
                if at < count {
                    self.todos[at].reminder = None;
                    assert(self@.items =~= old(self)@.after(intent).items);
                }
                Action::Continue
            },
            Intent::EditText => {
                if at < count {
                    self.editing = Some(Field::Text);
                    Action::Edit { field: Field::Text, seed: self.todos[at].text.clone() }
                } else {
                    Action::Continue
                }
            },
            Intent::SetDue => {
                if at < count {
                    self.editing = Some(Field::DueDate);
                    let seed = match &self.todos[at].due_date {
                        Some(d) => d.clone(),
                        None => String::new(),
                    };
                    Action::Edit { field: Field::DueDate, seed }
                } else {
                    Action::Continue
                }
            },
            Intent::SetReminder => {
                if at < count {
                    self.editing = Some(Field::Reminder);
                    let seed = match &self.todos[at].reminder {
                        Some(r) => r.clone(),
                        None => String::new(),
                    };
                    Action::Edit { field: Field::Reminder, seed }
                } else {
                    Action::Continue
                }
            },
            Intent::Add => {
                self.editing = Some(Field::NewItem);
                Action::Edit { field: Field::NewItem, seed: String::new() }
            },
        }
    }

    /// Takes the result of the external editor and goes back to viewing,
    /// whatever the result. `outcome` is what the scratch file held
    /// afterwards, or `None` when the editor could not be run or the file
    /// could not be written or read; then nothing but the state changes.
    pub fn resume(&mut self, outcome: Option<String>)
        ensures
            final(self)@ == old(self)@.resumed(opt_text(outcome)),
            final(self)@.editing is None,
            old(self)@.wf() ==> final(self)@.wf(),
    {
        let field = match self.editing {
            Some(field) => field,
            None => {
                return ;
            },
        };
        self.editing = None;
        let content = match outcome {
            Some(content) => content,
            None => {
                return ;
            },
        };
        let kept = content.as_str().trim();
        let at = self.selected;
        let count = self.todos.len();
        match field {
            Field::Text => {
                if at < count && !kept.is_empty() {
                    self.todos[at].text = kept.to_owned();
                    assert(self@.items =~= old(self)@.resumed(opt_text(outcome)).items);
                }
            },
            Field::DueDate => {
                if at < count {
                    self.todos[at].due_date = if kept.is_empty() {
                        None
                    } else {
                        Some(kept.to_owned())
                    };
                    assert(self@.items =~= old(self)@.resumed(opt_text(outcome)).items);
                }
            },
            Field::Reminder => {
                if at < count {
                    self.todos[at].reminder = if kept.is_empty() {
                        None
                    } else {
                        Some(kept.to_owned())
                    };
                    assert(self@.items =~= old(self)@.resumed(opt_text(outcome)).items);
                }
            },
            Field::NewItem => {
                if !kept.is_empty() {
                    // The new item's id is the length of the list once the
                    // item is in it, so that length is read after the push.
                    self.todos.push(Todo::new(0, kept.to_owned()));
                    let n = self.todos.len();
                    self.todos[n - 1].id = n;
                    self.selected = n - 1;
                    assert(self@.items =~= old(self)@.resumed(opt_text(outcome)).items);
                }
            },
        }
    }

    /// Ends the session and hands the list back, with each item's `id`
    /// set to its place in the list.
    pub fn finish(self) -> (todos: Vec<Todo>)
        ensures
            views(todos@) == renumbered(self@.items),
            is_numbered(views(todos@)),
    {
        let mut todos = self.todos;
        renumber(&mut todos);
        todos
    }
}

} // verus!
