use todo::editor::{
    editor_command, first_step, next_step, scratch_path, Next, Step, DEFAULT_EDITOR,
    EDITOR_VARIABLE,
};
use todo::screen::Field;

#[test]
fn the_editor_is_the_configured_one_or_nano() {
    assert_eq!(editor_command(Some("vi".to_string())), "vi");
    assert_eq!(editor_command(None), "nano");
    assert_eq!(DEFAULT_EDITOR, "nano");
    assert_eq!(EDITOR_VARIABLE, "EDITOR");
}

#[test]
fn each_field_has_its_scratch_file() {
    assert_eq!(scratch_path(Field::Text), "/tmp/todo_edit.txt");
    assert_eq!(scratch_path(Field::NewItem), "/tmp/todo_edit.txt");
    assert_eq!(scratch_path(Field::DueDate), "/tmp/todo_due.txt");
    assert_eq!(scratch_path(Field::Reminder), "/tmp/todo_reminder.txt");
}

#[test]
fn the_steps_follow_each_other() {
    assert_eq!(first_step(), Step::WriteSeed);
    assert_eq!(next_step(Step::WriteSeed, true), Next::Do(Step::LeaveScreen));
    assert_eq!(next_step(Step::LeaveScreen, true), Next::Do(Step::Launch));
    assert_eq!(next_step(Step::Launch, true), Next::Do(Step::RestoreScreen));
    assert_eq!(next_step(Step::RestoreScreen, true), Next::Do(Step::ReadBack));
    assert_eq!(next_step(Step::ReadBack, true), Next::Done);
}

#[test]
fn the_screen_is_restored_after_a_failed_launch() {
    assert_eq!(next_step(Step::Launch, false), Next::Do(Step::RestoreScreen));
}

#[test]
fn any_other_failed_step_ends_the_edit() {
    assert_eq!(next_step(Step::WriteSeed, false), Next::Fail);
    assert_eq!(next_step(Step::LeaveScreen, false), Next::Fail);
    assert_eq!(next_step(Step::RestoreScreen, false), Next::Fail);
    assert_eq!(next_step(Step::ReadBack, false), Next::Fail);
}
