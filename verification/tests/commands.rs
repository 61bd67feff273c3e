use todo::commands::{
    add_item, begin_edit, clear_reminder, delete, finish_edit, format_todo, handle_json_commands,
    list, mark_done, position, set_due, set_reminder, Commands, Outcome,
};
use todo::dates::{Date, DateTime, FormatError, Time};
use todo::item::Todo;

fn item(id: usize, text: &str) -> Todo {
    Todo::new(id, text.to_string())
}

fn three() -> Vec<Todo> {
    vec![item(1, "a"), item(2, "b"), item(3, "c")]
}

fn words(text: &[&str]) -> Vec<String> {
    text.iter().map(|w| w.to_string()).collect()
}

#[test]
fn add_appends_the_joined_words() {
    let mut todos = three();
    let outcome = handle_json_commands(Commands::Add { text: words(&["buy", "milk"]) }, &mut todos);
    assert_eq!(outcome, Outcome::Added);
    assert_eq!(todos.len(), 4);
    assert_eq!(todos[3], item(4, "buy milk"));
    assert_eq!(&todos[..3], &three()[..]);
}

#[test]
fn add_to_an_empty_list_gives_the_first_id() {
    let mut todos = Vec::new();
    assert_eq!(add_item(&mut todos, &words(&["one"])), Outcome::Added);
    assert_eq!(todos, vec![item(1, "one")]);
}

#[test]
fn add_without_words_adds_an_empty_text() {
    let mut todos = Vec::new();
    add_item(&mut todos, &Vec::new());
    assert_eq!(todos, vec![item(1, "")]);
}

#[test]
fn the_first_item_with_an_id_is_found() {
    let todos = vec![item(5, "a"), item(7, "b"), item(7, "c")];
    assert_eq!(position(&todos, 5), Some(0));
    assert_eq!(position(&todos, 7), Some(1));
    assert_eq!(position(&todos, 1), None);
    assert_eq!(position(&Vec::new(), 1), None);
}

#[test]
fn done_marks_the_item() {
    let mut todos = three();
    assert_eq!(handle_json_commands(Commands::Done { id: 2 }, &mut todos), Outcome::MarkedDone);
    assert!(!todos[0].done);
    assert!(todos[1].done);
    assert!(!todos[2].done);
    assert_eq!(mark_done(&mut todos, 2), Outcome::MarkedDone);
    assert!(todos[1].done);
}

#[test]
fn done_marks_only_the_first_of_two_with_the_id() {
    let mut todos = vec![item(7, "a"), item(7, "b")];
    mark_done(&mut todos, 7);
    assert!(todos[0].done);
    assert!(!todos[1].done);
}

#[test]
fn done_on_an_unknown_id_finds_nothing() {
    let mut todos = three();
    assert_eq!(
        handle_json_commands(Commands::Done { id: 9 }, &mut todos),
        Outcome::NotFound { id: 9 }
    );
    assert_eq!(todos, three());
}

#[test]
fn edit_asks_for_the_editor() {
    let mut todos = three();
    assert_eq!(
        handle_json_commands(Commands::Edit { id: 3 }, &mut todos),
        Outcome::Edit { id: 3, seed: "c".to_string() }
    );
    assert_eq!(todos, three());
    assert_eq!(begin_edit(&todos, 4), Outcome::NotFound { id: 4 });
}

#[test]
fn the_edited_text_is_stored_trimmed() {
    let mut todos = three();
    assert_eq!(finish_edit(&mut todos, 2, "  paint the fence\n"), Outcome::Updated);
    assert_eq!(todos[1].text, "paint the fence");
    assert_eq!(todos[0].text, "a");
    assert_eq!(todos[2].text, "c");
}

#[test]
fn a_blank_edit_from_the_command_line_is_discarded() {
    for content in ["", " ", "  \n", "\t\r\n", "\u{3000}\u{A0}"] {
        let mut todos = three();
        todos[1].done = true;
        let before = todos.clone();
        assert_eq!(finish_edit(&mut todos, 2, content), Outcome::Updated);
        assert_eq!(todos, before);
        assert_eq!(todos[1].text, "b");
    }
}

#[test]
fn an_edit_through_the_command_keeps_the_text_on_a_blank_result() {
    let mut todos = three();
    assert_eq!(
        handle_json_commands(Commands::Edit { id: 3 }, &mut todos),
        Outcome::Edit { id: 3, seed: "c".to_string() }
    );
    assert_eq!(finish_edit(&mut todos, 3, "  \n"), Outcome::Updated);
    assert_eq!(todos, three());
    assert_eq!(finish_edit(&mut todos, 3, " sweep the yard \n"), Outcome::Updated);
    assert_eq!(todos[2].text, "sweep the yard");
}

#[test]
fn a_blank_edit_of_an_unknown_id_finds_nothing() {
    let mut todos = three();
    assert_eq!(finish_edit(&mut todos, 8, " "), Outcome::NotFound { id: 8 });
    assert_eq!(todos, three());
}

#[test]
fn the_edited_text_of_an_unknown_id_is_dropped() {
    let mut todos = three();
    assert_eq!(finish_edit(&mut todos, 8, "x"), Outcome::NotFound { id: 8 });
    assert_eq!(todos, three());
}

#[test]
fn delete_takes_the_item_out_and_renumbers() {
    let mut todos = three();
    assert_eq!(
        handle_json_commands(Commands::Delete { id: 2 }, &mut todos),
        Outcome::Deleted { id: 2 }
    );
    assert_eq!(todos, vec![item(1, "a"), item(2, "c")]);
}

#[test]
fn delete_takes_out_every_item_with_the_id() {
    let mut todos = vec![item(4, "a"), item(9, "b"), item(4, "c"), item(4, "d"), item(2, "e")];
    assert_eq!(delete(&mut todos, 4), Outcome::Deleted { id: 4 });
    assert_eq!(todos, vec![item(1, "b"), item(2, "e")]);
}

#[test]
fn delete_of_an_unknown_id_still_renumbers() {
    let mut todos = vec![item(4, "a"), item(9, "b")];
    assert_eq!(delete(&mut todos, 1), Outcome::NotFound { id: 1 });
    assert_eq!(todos, vec![item(1, "a"), item(2, "b")]);
}

#[test]
fn delete_of_the_last_item_leaves_an_empty_list() {
    let mut todos = vec![item(1, "a")];
    assert_eq!(delete(&mut todos, 1), Outcome::Deleted { id: 1 });
    assert!(todos.is_empty());
    assert_eq!(delete(&mut todos, 1), Outcome::NotFound { id: 1 });
}

#[test]
fn delete_keeps_the_other_fields() {
    let mut todos = three();
    todos[2].done = true;
    todos[2].due_date = Some("2025-03-01".to_string());
    todos[2].reminder = Some("2025-02-28 18:00".to_string());
    delete(&mut todos, 1);
    assert_eq!(todos[1].id, 2);
    assert_eq!(todos[1].text, "c");
    assert!(todos[1].done);
    assert_eq!(todos[1].due_date, Some("2025-03-01".to_string()));
    assert_eq!(todos[1].reminder, Some("2025-02-28 18:00".to_string()));
}

#[test]
fn a_row_of_the_listing_shows_the_id() {
    let mut todo = item(12, "write");
    assert_eq!(format_todo(&todo), "[ ] 12: write (Due: No due date, Reminder: No reminder)");
    todo.done = true;
    todo.due_date = Some("2025-03-01".to_string());
    todo.reminder = Some("2025-02-28 18:00".to_string());
    assert_eq!(format_todo(&todo), "[✓] 12: write (Due: 2025-03-01, Reminder: 2025-02-28 18:00)");
}

#[test]
fn list_gives_a_row_for_each_item() {
    let mut todos = three();
    todos[1].done = true;
    let before = todos.clone();
    assert_eq!(
        handle_json_commands(Commands::List, &mut todos),
        Outcome::Listed {
            rows: vec![
                "[ ] 1: a (Due: No due date, Reminder: No reminder)".to_string(),
                "[✓] 2: b (Due: No due date, Reminder: No reminder)".to_string(),
                "[ ] 3: c (Due: No due date, Reminder: No reminder)".to_string(),
            ]
        }
    );
    assert_eq!(todos, before);
    assert_eq!(list(&Vec::new()), Outcome::Listed { rows: Vec::new() });
}

#[test]
fn tui_asks_for_the_screen() {
    let mut todos = three();
    assert_eq!(handle_json_commands(Commands::Tui, &mut todos), Outcome::Screen);
    assert_eq!(todos, three());
}

#[test]
fn due_stores_the_date_as_written() {
    let mut todos = three();
    assert_eq!(
        handle_json_commands(Commands::Due { id: 2, date: "2025-03-01".to_string() }, &mut todos),
        Outcome::DueSet { id: 2 }
    );
    assert_eq!(todos[1].due_date, Some("2025-03-01".to_string()));
    assert_eq!(todos[0].due_date, None);
    assert_eq!(
        handle_json_commands(Commands::Due { id: 2, date: "2025-3-1".to_string() }, &mut todos),
        Outcome::DueSet { id: 2 }
    );
    assert_eq!(todos[1].due_date, Some("2025-3-1".to_string()));
}

#[test]
fn due_refuses_what_is_no_date() {
    let mut todos = three();
    for date in ["", "soon", "2025-02-30", "01.03.2025"] {
        assert_eq!(
            handle_json_commands(Commands::Due { id: 2, date: date.to_string() }, &mut todos),
            Outcome::BadDate
        );
    }
    assert_eq!(todos, three());
}

#[test]
fn due_looks_at_the_date_before_the_id() {
    let mut todos = three();
    assert_eq!(
        handle_json_commands(Commands::Due { id: 9, date: "soon".to_string() }, &mut todos),
        Outcome::BadDate
    );
    assert_eq!(
        handle_json_commands(Commands::Due { id: 9, date: "2025-03-01".to_string() }, &mut todos),
        Outcome::NotFound { id: 9 }
    );
    assert_eq!(todos, three());
}

#[test]
fn set_due_goes_by_what_was_read() {
    let mut todos = three();
    let read = Ok(Date { year: 2025, month: 3, day: 1 });
    assert_eq!(set_due(&mut todos, 1, "anything".to_string(), read), Outcome::DueSet { id: 1 });
    assert_eq!(todos[0].due_date, Some("anything".to_string()));
    assert_eq!(
        set_due(&mut todos, 1, "2025-03-01".to_string(), Err(FormatError::BadDate)),
        Outcome::BadDate
    );
    assert_eq!(todos[0].due_date, Some("anything".to_string()));
}

#[test]
fn remind_stores_the_minute_in_its_usual_form() {
    let mut todos = three();
    assert_eq!(
        handle_json_commands(
            Commands::Remind { id: 3, date: "2025-03-01".to_string(), time: "09:30".to_string() },
            &mut todos
        ),
        Outcome::ReminderSet { id: 3 }
    );
    assert_eq!(todos[2].reminder, Some("2025-03-01 09:30".to_string()));
    assert_eq!(
        handle_json_commands(
            Commands::Remind { id: 1, date: "2025-3-1".to_string(), time: "7:05".to_string() },
            &mut todos
        ),
        Outcome::ReminderSet { id: 1 }
    );
    assert_eq!(todos[0].reminder, Some("2025-03-01 07:05".to_string()));
}

#[test]
fn remind_refuses_what_is_no_date_or_no_time() {
    let mut todos = three();
    let pairs = [
        ("soon", "09:30"),
        ("2025-03-01", "late"),
        ("2025-02-30", "09:30"),
        ("2025-03-01", "24:00"),
        ("", ""),
    ];
    for (date, time) in pairs {
        assert_eq!(
            handle_json_commands(
                Commands::Remind { id: 1, date: date.to_string(), time: time.to_string() },
                &mut todos
            ),
            Outcome::BadDateTime
        );
    }
    assert_eq!(todos, three());
}

#[test]
fn remind_on_an_unknown_id_finds_nothing() {
    let mut todos = three();
    assert_eq!(
        handle_json_commands(
            Commands::Remind { id: 9, date: "2025-03-01".to_string(), time: "09:30".to_string() },
            &mut todos
        ),
        Outcome::NotFound { id: 9 }
    );
    assert_eq!(todos, three());
}

#[test]
fn set_reminder_goes_by_what_was_read() {
    let mut todos = three();
    let minute = DateTime {
        date: Date { year: 2031, month: 12, day: 24 },
        time: Time { hour: 18, minute: 0 },
    };
    assert_eq!(set_reminder(&mut todos, 2, Ok(minute)), Outcome::ReminderSet { id: 2 });
    assert_eq!(todos[1].reminder, Some("2031-12-24 18:00".to_string()));
    assert_eq!(set_reminder(&mut todos, 2, Err(FormatError::BadTime)), Outcome::BadDateTime);
    assert_eq!(set_reminder(&mut todos, 2, Err(FormatError::BadDate)), Outcome::BadDateTime);
    assert_eq!(todos[1].reminder, Some("2031-12-24 18:00".to_string()));
}

#[test]
fn set_reminder_refuses_a_minute_that_does_not_exist() {
    let mut todos = three();
    let no_day = DateTime {
        date: Date { year: 2025, month: 2, day: 30 },
        time: Time { hour: 18, minute: 0 },
    };
    let no_minute = DateTime {
        date: Date { year: 2025, month: 2, day: 3 },
        time: Time { hour: 18, minute: 60 },
    };
    assert_eq!(set_reminder(&mut todos, 2, Ok(no_day)), Outcome::BadDateTime);
    assert_eq!(set_reminder(&mut todos, 2, Ok(no_minute)), Outcome::BadDateTime);
    assert_eq!(todos, three());
}

#[test]
fn clear_reminder_clears_it() {
    let mut todos = three();
    todos[0].reminder = Some("2025-03-01 09:30".to_string());
    todos[0].due_date = Some("2025-03-01".to_string());
    assert_eq!(
        handle_json_commands(Commands::ClearReminder { id: 1 }, &mut todos),
        Outcome::ReminderCleared { id: 1 }
    );
    assert_eq!(todos[0].reminder, None);
    assert_eq!(todos[0].due_date, Some("2025-03-01".to_string()));
    assert_eq!(clear_reminder(&mut todos, 1), Outcome::ReminderCleared { id: 1 });
    assert_eq!(clear_reminder(&mut todos, 5), Outcome::NotFound { id: 5 });
}

fn has_white_space_property(c: char) -> bool {
    matches!(
        c as u32,
        0x09..=0x0D
            | 0x20
            | 0x85
            | 0xA0
            | 0x1680
            | 0x2000..=0x200A
            | 0x2028
            | 0x2029
            | 0x202F
            | 0x205F
            | 0x3000
    )
}

#[test]
fn exactly_the_white_space_characters_are_trimmed() {
    let mut todos = vec![item(1, "a")];
    for code in 0..=0x10FFFFu32 {
        let c = match char::from_u32(code) {
            Some(c) => c,
            None => continue,
        };
        let content = format!("{}x{}", c, c);
        finish_edit(&mut todos, 1, &content);
        if has_white_space_property(c) {
            assert_eq!(todos[0].text, "x");
        } else {
            assert_eq!(todos[0].text, content);
        }
    }
}
