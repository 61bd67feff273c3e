use todo::item::{copy_opt_text, renumber, Todo};

#[test]
fn a_new_item_is_open_and_has_no_dates() {
    let t = Todo::new(1, "a".to_string());
    assert_eq!(t.id, 1);
    assert_eq!(t.text, "a");
    assert!(!t.done);
    assert!(t.due_date.is_none());
    assert!(t.reminder.is_none());
}

#[test]
fn a_clone_holds_the_same() {
    let t = Todo {
        id: 3,
        text: "call".to_string(),
        done: true,
        due_date: Some("2025-03-01".to_string()),
        reminder: Some("2025-02-28 18:00".to_string()),
    };
    assert_eq!(t.clone(), t);
}

#[test]
fn an_optional_text_is_copied() {
    assert_eq!(copy_opt_text(&None), None);
    assert_eq!(copy_opt_text(&Some("x".to_string())), Some("x".to_string()));
}

#[test]
fn renumbering_counts_from_one() {
    let mut todos = vec![
        Todo::new(7, "a".to_string()),
        Todo::new(7, "b".to_string()),
        Todo::new(0, "c".to_string()),
    ];
    todos[1].done = true;
    todos[2].due_date = Some("2025-03-01".to_string());
    renumber(&mut todos);
    assert_eq!(todos[0].id, 1);
    assert_eq!(todos[1].id, 2);
    assert_eq!(todos[2].id, 3);
    assert_eq!(todos[0].text, "a");
    assert_eq!(todos[1].text, "b");
    assert!(todos[1].done);
    assert_eq!(todos[2].due_date, Some("2025-03-01".to_string()));
}

#[test]
fn renumbering_an_empty_list_leaves_it_empty() {
    let mut todos: Vec<Todo> = Vec::new();
    renumber(&mut todos);
    assert!(todos.is_empty());
}

#[test]
fn renumbering_twice_is_renumbering_once() {
    let mut todos = vec![Todo::new(5, "a".to_string()), Todo::new(9, "b".to_string())];
    renumber(&mut todos);
    let once = todos.clone();
    renumber(&mut todos);
    assert_eq!(todos, once);
}
