//! What holds of the list editor in every state, of the numbering of a
//! list, and of edits that come back from the external editor: proved
//! statements about the transitions of [`SessionView`] and about the
//! operations of the command line.

use vstd::prelude::*;
use crate::commands::{
    OutcomeView, first_with_id, is_first_with_id, setting_text, with_edited_text, with_first,
    with_new,
};
use crate::database::{ChangeView, PlanView, Statement, edit_planned};
use crate::item::{TodoView, is_numbered, renumbered};
use crate::screen::{ActionView, Field, Intent, Key, SessionView, binding, field_of};
use crate::text::{
    is_blank, is_white_space, lemma_trimmed_empty_iff_blank, lemma_trimmed_of_tight, trimmed,
};

verus! {

/// The state after a run of keys, pressed in order while viewing.
pub open spec fn after_keys(s: SessionView, keys: Seq<Key>) -> SessionView
    decreases keys.len(),
{
    if keys.len() == 0 {
        s
    } else {
        after_keys(s, keys.drop_last()).after(binding(keys.last()))
    }
}

/// The state after `times` presses of the toggle key.
pub open spec fn toggled(s: SessionView, times: nat) -> SessionView
    decreases times,
{
    if times == 0 {
        s
    } else {
        toggled(s, (times - 1) as nat).after(Intent::Toggle)
    }
}

/// Whether `intent` works on the selected item or moves the selection.
pub open spec fn needs_item(intent: Intent) -> bool {
    match intent {
        Intent::Up
        | Intent::Down
        | Intent::Toggle
        | Intent::Delete
        | Intent::EditText
        | Intent::SetDue
        | Intent::SetReminder
        | Intent::ClearReminder => true,
        Intent::Quit | Intent::Add | Intent::Nothing => false,
    }
}

/// No key takes the selection out of the list: a well-formed state stays
/// well-formed.
pub proof fn lemma_key_keeps_selection_valid(s: SessionView, intent: Intent)
    requires
        s.wf(),
    ensures
        s.after(intent).wf(),
{
}

/// The editor's result never takes the selection out of the list either.
pub proof fn lemma_resume_keeps_selection_valid(s: SessionView, outcome: Option<Seq<char>>)
    requires
        s.wf(),
    ensures
        s.resumed(outcome).wf(),
        s.resumed(outcome).editing is None,
{
}

/// On a list that is not empty, any run of up and down keys leaves the
/// list as it is and the selection on one of its items.
pub proof fn lemma_moves_stay_in_list(s: SessionView, keys: Seq<Key>)
    requires
        s.wf(),
        s.items.len() > 0,
        forall|i: int| 0 <= i < keys.len() ==> keys[i] == Key::Up || keys[i] == Key::Down,
    ensures
        after_keys(s, keys).items == s.items,
        after_keys(s, keys).editing == s.editing,
        0 <= after_keys(s, keys).selected < s.items.len(),
    decreases keys.len(),
{
    if keys.len() > 0 {
        lemma_moves_stay_in_list(s, keys.drop_last());
    }
}

/// Toggling an even number of times gives the state back as it was, and
/// an odd number of times is the same as toggling once.
pub proof fn lemma_toggle_parity(s: SessionView, times: nat)
    ensures
        times % 2 == 0 ==> toggled(s, times) == s,
        times % 2 == 1 ==> toggled(s, times) == s.after(Intent::Toggle),
    decreases times,
{
    if times > 0 {
        lemma_toggle_parity(s, (times - 1) as nat);
        let once = s.after(Intent::Toggle);
        assert(once.after(Intent::Toggle) == s) by {
            assert(once.after(Intent::Toggle).items =~= s.items);
        }
    }
}

/// One toggle flips `done` of the selected item and touches nothing
/// else.
pub proof fn lemma_toggle_flips_done(s: SessionView)
    requires
        s.editing is None,
        s.has_current(),
    ensures
        s.after(Intent::Toggle).current().done == !s.current().done,
        s.after(Intent::Toggle).selected == s.selected,
        s.after(Intent::Toggle).items.len() == s.items.len(),
        forall|i: int|
            0 <= i < s.items.len() && i != s.selected ==> s.after(Intent::Toggle).items[i]
                == s.items[i],
{
}

/// Deleting the selected item takes exactly that item out of the list.
/// The selection moves up by one, and stays at the top if it was there.
pub proof fn lemma_delete_moves_selection_up(s: SessionView)
    requires
        s.editing is None,
        s.has_current(),
    ensures
        s.after(Intent::Delete).items == s.items.remove(s.selected as int),
        s.after(Intent::Delete).items.len() == s.items.len() - 1,
        s.selected > 0 ==> s.after(Intent::Delete).selected == s.selected - 1,
        s.selected == 0 ==> s.after(Intent::Delete).selected == 0,
{
}

/// Deleting the only item leaves an empty list, on which every intent
/// that needs an item changes nothing and asks for nothing.
pub proof fn lemma_delete_of_sole_item(s: SessionView, next: Intent)
    requires
        s.editing is None,
        s.items.len() == 1,
        s.selected == 0,
        needs_item(next),
    ensures
        s.after(Intent::Delete).items.len() == 0,
        s.after(Intent::Delete).selected == 0,
        s.after(Intent::Delete).after(next) == s.after(Intent::Delete),
        s.after(Intent::Delete).request(next) == ActionView::Continue,
{
}

/// Where no item is selected, an intent that needs one changes nothing
/// and asks for nothing.
pub proof fn lemma_nothing_selected_nothing_done(s: SessionView, intent: Intent)
    requires
        s.items.len() == 0,
        s.wf(),
        needs_item(intent),
    ensures
        s.after(intent) == s,
        s.request(intent) == ActionView::Continue,
{
}

/// An edit of the text that comes back blank leaves the items as they
/// were. Any other result puts its trimmed text in the place of the
/// selected item's text; a result without white space at either end is
/// stored as it is.
pub proof fn lemma_text_edit(s: SessionView, content: Seq<char>)
    requires
        s.editing == Some(Field::Text),
        s.has_current(),
    ensures
        is_blank(content) ==> s.resumed(Some(content)).items == s.items,
        !is_blank(content) ==> s.resumed(Some(content)).items == s.items.update(
            s.selected as int,
            TodoView { text: trimmed(content), ..s.current() },
        ),
        content.len() > 0 && !is_white_space(content.first()) && !is_white_space(content.last())
            ==> s.resumed(Some(content)).current().text == content,
        s.resumed(Some(content)).selected == s.selected,
{
    lemma_trimmed_empty_iff_blank(content);
    if content.len() > 0 && !is_white_space(content.first()) && !is_white_space(content.last()) {
        lemma_trimmed_of_tight(content);
    }
}

/// An addition that comes back blank adds nothing and leaves the
/// selection where it was. Any other result adds one open item without
/// dates at the end, with the trimmed text, and selects it.
pub proof fn lemma_add(s: SessionView, content: Seq<char>)
    requires
        s.editing == Some(Field::NewItem),
    ensures
        is_blank(content) ==> s.resumed(Some(content)).items == s.items && s.resumed(
            Some(content),
        ).selected == s.selected,
        !is_blank(content) ==> {
            let r = s.resumed(Some(content));
            &&& r.items.len() == s.items.len() + 1
            &&& r.items.subrange(0, s.items.len() as int) == s.items
            &&& r.items.last() == TodoView::fresh((s.items.len() + 1) as usize, trimmed(content))
            &&& !r.items.last().done
            &&& r.selected == r.items.len() - 1
        },
{
    lemma_trimmed_empty_iff_blank(content);
}

/// An edit of the due date or of the reminder that comes back blank
/// clears the field. Any other result stores its trimmed text; a result
/// without white space at either end is stored as it is.
pub proof fn lemma_date_edit(s: SessionView, content: Seq<char>)
    requires
        s.editing == Some(Field::DueDate) || s.editing == Some(Field::Reminder),
        s.has_current(),
    ensures
        ({
            let r = s.resumed(Some(content)).current();
            let stored = if s.editing == Some(Field::DueDate) {
                r.due_date
            } else {
                r.reminder
            };
            &&& stored == field_of(trimmed(content))
            &&& is_blank(content) ==> stored is None
            &&& content.len() > 0 && !is_white_space(content.first()) && !is_white_space(
                content.last(),
            ) ==> stored == Some(content)
        }),
        s.resumed(Some(content)).selected == s.selected,
        s.resumed(Some(content)).items.len() == s.items.len(),
{
    lemma_trimmed_empty_iff_blank(content);
    if content.len() > 0 && !is_white_space(content.first()) && !is_white_space(content.last()) {
        lemma_trimmed_of_tight(content);
    }
}

/// When the editor fails, the items and the selection stay as they were.
pub proof fn lemma_failed_edit_changes_nothing(s: SessionView)
    ensures
        s.resumed(None).items == s.items,
        s.resumed(None).selected == s.selected,
        s.resumed(None).editing is None,
{
}

/// A list that is numbered stays numbered under every intent but a
/// deletion.
pub proof fn lemma_key_keeps_numbering(s: SessionView, intent: Intent)
    requires
        is_numbered(s.items),
        intent != Intent::Delete,
    ensures
        is_numbered(s.after(intent).items),
{
}

/// A list that is numbered stays numbered when the editor's result is
/// taken in: an item that is added gets the next number.
pub proof fn lemma_resume_keeps_numbering(s: SessionView, outcome: Option<Seq<char>>)
    requires
        is_numbered(s.items),
        s.items.len() < usize::MAX,
    ensures
        is_numbered(s.resumed(outcome).items),
{
}

/// An item that the command line adds to a numbered list gets the next
/// number.
pub proof fn lemma_add_keeps_numbering(items: Seq<TodoView>, text: Seq<char>)
    requires
        is_numbered(items),
        items.len() < usize::MAX,
    ensures
        is_numbered(with_new(items, text)),
{
}

/// Whatever was deleted, the list that a session hands back is
/// numbered; one that was numbered all along is handed back as it is.
pub proof fn lemma_finish_numbers(items: Seq<TodoView>)
    requires
        items.len() <= usize::MAX,
    ensures
        is_numbered(renumbered(items)),
        renumbered(items).len() == items.len(),
        is_numbered(items) ==> renumbered(items) == items,
{
}

/// An edit from the command line that comes back blank is discarded:
/// the items stay as they were. Any other result puts its trimmed text
/// in the place of the text of the first item with the id, and changes
/// nothing else; a result without white space at either end is stored
/// as it is.
pub proof fn lemma_command_line_edit(items: Seq<TodoView>, id: usize, content: Seq<char>)
    ensures
        is_blank(content) ==> with_edited_text(items, id, content) == items,
        !is_blank(content) ==> with_edited_text(items, id, content) == with_first(
            items,
            id,
            setting_text(trimmed(content)),
        ),
        with_edited_text(items, id, content).len() == items.len(),
        !is_blank(content) ==> (first_with_id(items, id) matches Some(at) ==> with_edited_text(
            items,
            id,
            content,
        )[at].text == trimmed(content)),
        content.len() > 0 && !is_white_space(content.first()) && !is_white_space(content.last())
            ==> trimmed(content) == content,
{
    lemma_trimmed_empty_iff_blank(content);
    if content.len() > 0 && !is_white_space(content.first()) && !is_white_space(content.last()) {
        lemma_trimmed_of_tight(content);
    }
    if first_with_id(items, id) is Some {
        let at = first_with_id(items, id)->0;
        assert(is_first_with_id(items, id, at));
    }
}

/// For a list that is kept in the database, an edit that comes back
/// blank is discarded too: no statement is planned for it. Any other
/// result plans the one statement that stores its trimmed text.
pub proof fn lemma_database_edit(id: usize, content: Seq<char>)
    ensures
        is_blank(content) ==> edit_planned(id, content) == PlanView::Answer(OutcomeView::Updated),
        !is_blank(content) ==> edit_planned(id, content) == PlanView::Change(
            ChangeView {
                statement: Statement::SetText,
                text: Some(trimmed(content)),
                id: Some(id),
                made: OutcomeView::Updated,
                needs_row: false,
            },
        ),
{
    lemma_trimmed_empty_iff_blank(content);
}

} // verus!
