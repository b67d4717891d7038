use todo_app::dispatch::{run_command, Command};
use todo_app::error::TodoError;
use todo_app::store::{create_table, Store};
use todo_app::timestamp::Timestamp;

fn ts(year: u16, month: u8, day: u8, hour: u8, minute: u8, second: u8) -> Timestamp {
    Timestamp { year, month, day, hour, minute, second }
}

fn fresh_store() -> Store {
    let mut store = Store::open_in_memory().unwrap();
    create_table(&mut store).unwrap();
    store
}

fn noon() -> Timestamp {
    ts(2024, 1, 2, 3, 4, 5)
}

#[test]
fn empty_list_prints_notice() {
    let mut store = fresh_store();
    let out = run_command(&mut store, &Command::List, noon()).unwrap();
    assert_eq!(out, "No tasks found\n");
}

#[test]
fn add_prints_nothing_then_list_shows_the_task() {
    let mut store = fresh_store();
    let out = run_command(&mut store, &Command::Add("buy milk".to_string()), noon()).unwrap();
    assert_eq!(out, "");
    let listed = run_command(&mut store, &Command::List, noon()).unwrap();
    assert_eq!(listed, "[ ] ID: 1, Description: buy milk, Created At: 2024-01-02 03:04:05\n");
}

#[test]
fn remove_prints_the_id_and_list_keeps_the_rest() {
    let mut store = fresh_store();
    run_command(&mut store, &Command::Add("a".to_string()), noon()).unwrap();
    run_command(&mut store, &Command::Add("b".to_string()), noon()).unwrap();
    let out = run_command(&mut store, &Command::Remove(1), noon()).unwrap();
    assert_eq!(out, "Removed task with id: 1\n");
    let listed = run_command(&mut store, &Command::List, noon()).unwrap();
    assert_eq!(listed, "[ ] ID: 2, Description: b, Created At: 2024-01-02 03:04:05\n");
}

#[test]
fn check_lists_and_repeating_is_a_noop_notice() {
    let mut store = fresh_store();
    run_command(&mut store, &Command::Add("a".to_string()), noon()).unwrap();
    let first = run_command(&mut store, &Command::Check(1), noon()).unwrap();
    assert_eq!(first, "[X] ID: 1, Description: a, Created At: 2024-01-02 03:04:05\n");
    let second = run_command(&mut store, &Command::Check(1), noon()).unwrap();
    assert_eq!(second, "Task already completed\n");
    let listed = run_command(&mut store, &Command::List, noon()).unwrap();
    assert_eq!(listed, "[X] ID: 1, Description: a, Created At: 2024-01-02 03:04:05\n");
}

#[test]
fn uncheck_mirrors_check() {
    let mut store = fresh_store();
    run_command(&mut store, &Command::Add("a".to_string()), noon()).unwrap();
    let early = run_command(&mut store, &Command::Uncheck(1), noon()).unwrap();
    assert_eq!(early, "Task already not completed\n");
    run_command(&mut store, &Command::Check(1), noon()).unwrap();
    let undone = run_command(&mut store, &Command::Uncheck(1), noon()).unwrap();
    assert_eq!(undone, "[ ] ID: 1, Description: a, Created At: 2024-01-02 03:04:05\n");
}

#[test]
fn check_missing_id_is_not_found() {
    let mut store = fresh_store();
    let r = run_command(&mut store, &Command::Check(7), noon());
    assert!(matches!(r, Err(TodoError::NotFound)));
    let r = run_command(&mut store, &Command::Uncheck(7), noon());
    assert!(matches!(r, Err(TodoError::NotFound)));
}

#[test]
fn clear_all_reports_and_empties() {
    let mut store = fresh_store();
    run_command(&mut store, &Command::Add("a".to_string()), noon()).unwrap();
    run_command(&mut store, &Command::Add("b".to_string()), noon()).unwrap();
    let out = run_command(&mut store, &Command::ClearAll, noon()).unwrap();
    assert_eq!(out, "Cleared all todos\n");
    let listed = run_command(&mut store, &Command::List, noon()).unwrap();
    assert_eq!(listed, "No tasks found\n");
}

#[test]
fn clear_old_reports_and_drops_earlier_tasks() {
    let mut store = fresh_store();
    run_command(&mut store, &Command::Add("old".to_string()), ts(2020, 1, 1, 0, 0, 0)).unwrap();
    run_command(&mut store, &Command::Add("new".to_string()), ts(2030, 1, 1, 0, 0, 0)).unwrap();
    let out = run_command(&mut store, &Command::ClearOld, ts(2025, 6, 1, 12, 0, 0)).unwrap();
    assert_eq!(out, "Cleared all overdue todos\n");
    let listed = run_command(&mut store, &Command::List, ts(2025, 6, 1, 12, 0, 0)).unwrap();
    assert_eq!(listed, "[ ] ID: 2, Description: new, Created At: 2030-01-01 00:00:00\n");
}

#[test]
fn list_shows_tasks_in_insertion_order() {
    let mut store = fresh_store();
    run_command(&mut store, &Command::Add("first".to_string()), noon()).unwrap();
    run_command(&mut store, &Command::Add("second".to_string()), noon()).unwrap();
    let listed = run_command(&mut store, &Command::List, noon()).unwrap();
    assert_eq!(
        listed,
        "[ ] ID: 1, Description: first, Created At: 2024-01-02 03:04:05\n\
         [ ] ID: 2, Description: second, Created At: 2024-01-02 03:04:05\n"
    );
}
