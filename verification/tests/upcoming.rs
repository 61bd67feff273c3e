use todo::commands::{handle_json_commands, Commands, Outcome};
use todo::dates::{Date, DateTime, Time};
use todo::item::Todo;
use todo::upcoming::{pick_upcoming, reminder_times, upcoming, upcoming_at, Pending};

fn at(year: i32, month: u32, day: u32, hour: u32, minute: u32) -> DateTime {
    DateTime { date: Date { year, month, day }, time: Time { hour, minute } }
}

fn reminding(id: usize, text: &str, reminder: &str) -> Todo {
    let mut todo = Todo::new(id, text.to_string());
    todo.reminder = Some(reminder.to_string());
    todo
}

fn sample() -> Vec<Todo> {
    let mut done = reminding(4, "done", "2025-03-05 08:00");
    done.done = true;
    vec![
        reminding(1, "late", "2025-03-09 10:00"),
        Todo::new(2, "plain".to_string()),
        reminding(3, "past", "2025-03-01 09:29"),
        done,
        reminding(5, "soon", "2025-03-01 09:31"),
        reminding(6, "odd", "next week"),
        reminding(7, "now", "2025-03-01 09:30"),
        reminding(8, "also late", "2025-03-09 10:00"),
    ]
}

#[test]
fn each_item_has_the_minute_of_its_reminder() {
    assert_eq!(
        reminder_times(&sample()),
        vec![
            Some(at(2025, 3, 9, 10, 0)),
            None,
            Some(at(2025, 3, 1, 9, 29)),
            None,
            Some(at(2025, 3, 1, 9, 31)),
            None,
            Some(at(2025, 3, 1, 9, 30)),
            Some(at(2025, 3, 9, 10, 0)),
        ]
    );
    assert_eq!(reminder_times(&Vec::new()), Vec::new());
}

#[test]
fn the_minutes_ahead_are_picked_in_order() {
    let times = reminder_times(&sample());
    assert_eq!(
        pick_upcoming(&times, &at(2025, 3, 1, 9, 30)),
        vec![
            Pending { index: 4, at: at(2025, 3, 1, 9, 31) },
            Pending { index: 0, at: at(2025, 3, 9, 10, 0) },
            Pending { index: 7, at: at(2025, 3, 9, 10, 0) },
        ]
    );
}

#[test]
fn the_present_minute_is_not_ahead() {
    let times = vec![Some(at(2025, 3, 1, 9, 30))];
    assert_eq!(pick_upcoming(&times, &at(2025, 3, 1, 9, 30)), Vec::new());
    assert_eq!(
        pick_upcoming(&times, &at(2025, 3, 1, 9, 29)),
        vec![Pending { index: 0, at: at(2025, 3, 1, 9, 30) }]
    );
}

#[test]
fn minutes_in_falling_order_are_turned_round() {
    let times = vec![
        Some(at(2030, 1, 1, 0, 0)),
        Some(at(2029, 1, 1, 0, 0)),
        None,
        Some(at(2028, 1, 1, 0, 0)),
        Some(at(2027, 6, 1, 0, 0)),
    ];
    assert_eq!(
        pick_upcoming(&times, &at(2027, 12, 31, 23, 59)),
        vec![
            Pending { index: 3, at: at(2028, 1, 1, 0, 0) },
            Pending { index: 1, at: at(2029, 1, 1, 0, 0) },
            Pending { index: 0, at: at(2030, 1, 1, 0, 0) },
        ]
    );
}

#[test]
fn of_equal_minutes_the_first_in_the_list_comes_first() {
    let same = Some(at(2030, 1, 1, 0, 0));
    let times = vec![same, Some(at(2029, 1, 1, 0, 0)), same, same];
    let picked = pick_upcoming(&times, &at(2000, 1, 1, 0, 0));
    let order: Vec<usize> = picked.iter().map(|p| p.index).collect();
    assert_eq!(order, vec![1, 0, 2, 3]);
}

#[test]
fn nothing_is_picked_of_nothing() {
    assert_eq!(pick_upcoming(&Vec::new(), &at(2025, 1, 1, 0, 0)), Vec::new());
    assert_eq!(pick_upcoming(&vec![None, None], &at(2025, 1, 1, 0, 0)), Vec::new());
}

#[test]
fn picking_agrees_with_a_stable_sort() {
    let mut seed: u32 = 7;
    for round in 0..200 {
        let mut times = Vec::new();
        for _ in 0..(round % 9) {
            seed = seed.wrapping_mul(1664525).wrapping_add(1013904223);
            let pick = (seed >> 16) % 7;
            times.push(if pick == 0 {
                None
            } else {
                Some(at(2025, 1 + pick % 3, 1 + (seed >> 8) % 3, (seed >> 4) % 2, seed % 2))
            });
        }
        let now = at(2025, 2, 2, 0, 1);
        let mut expected: Vec<Pending> = times
            .iter()
            .enumerate()
            .filter_map(|(index, time)| time.map(|at| Pending { index, at }))
            .filter(|p| p.at.is_after(&now))
            .collect();
        expected.sort_by_key(|p| {
            (p.at.date.year, p.at.date.month, p.at.date.day, p.at.time.hour, p.at.time.minute)
        });
        assert_eq!(pick_upcoming(&times, &now), expected);
    }
}

#[test]
fn the_reminders_ahead_are_listed_the_nearest_first() {
    assert_eq!(
        upcoming_at(&sample(), &at(2025, 3, 1, 9, 30)),
        Outcome::Upcoming {
            rows: vec![
                "[5] soon - Due: 2025-03-01 09:31".to_string(),
                "[1] late - Due: 2025-03-09 10:00".to_string(),
                "[8] also late - Due: 2025-03-09 10:00".to_string(),
            ]
        }
    );
}

#[test]
fn a_reminder_is_listed_in_its_usual_form() {
    let todos = vec![reminding(1, "loose", "2031-7-4 8:05")];
    assert_eq!(
        upcoming_at(&todos, &at(2025, 1, 1, 0, 0)),
        Outcome::Upcoming { rows: vec!["[1] loose - Due: 2031-07-04 08:05".to_string()] }
    );
}

#[test]
fn nothing_is_listed_when_nothing_lies_ahead() {
    assert_eq!(
        upcoming_at(&sample(), &at(2025, 3, 9, 10, 0)),
        Outcome::Upcoming { rows: Vec::new() }
    );
    assert_eq!(
        upcoming_at(&Vec::new(), &at(2025, 1, 1, 0, 0)),
        Outcome::Upcoming { rows: Vec::new() }
    );
}

#[test]
fn the_clock_decides_what_lies_ahead() {
    let mut todos = vec![
        reminding(1, "far", "9999-12-31 23:59"),
        reminding(2, "gone", "1970-01-01 00:00"),
        reminding(3, "far too", "9998-01-01 00:00"),
    ];
    let expected = Outcome::Upcoming {
        rows: vec![
            "[3] far too - Due: 9998-01-01 00:00".to_string(),
            "[1] far - Due: 9999-12-31 23:59".to_string(),
        ],
    };
    assert_eq!(upcoming(&todos), expected);
    let before = todos.clone();
    assert_eq!(handle_json_commands(Commands::Upcoming, &mut todos), expected);
    assert_eq!(todos, before);
}
