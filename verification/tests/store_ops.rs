use todo_app::error::TodoError;
use todo_app::store::{create_table, Store};
use todo_app::timestamp::Timestamp;
use todo_app::todo_item::{
    add_todo_item, check_todo, get_all_todo_items, get_todo, remove_all_todos,
    remove_overdue_todos, remove_todo_item, uncheck_todo, TodoItem,
};

fn ts(year: u16, month: u8, day: u8, hour: u8, minute: u8, second: u8) -> Timestamp {
    Timestamp { year, month, day, hour, minute, second }
}

fn fresh_store() -> Store {
    let mut store = Store::open_in_memory().unwrap();
    create_table(&mut store).unwrap();
    store
}

fn add(store: &mut Store, text: &str, at: Timestamp) {
    add_todo_item(store, &TodoItem::new(text.to_string(), at)).unwrap();
}

#[test]
fn added_task_appears_once_uncompleted() {
    let mut store = fresh_store();
    add(&mut store, "buy milk", ts(2024, 1, 2, 3, 4, 5));
    let all = get_all_todo_items(&store).unwrap();
    assert_eq!(all.len(), 1);
    assert_eq!(all[0].id, 1);
    assert_eq!(all[0].description, "buy milk");
    assert!(!all[0].completed);
    assert_eq!(all[0].created_at, ts(2024, 1, 2, 3, 4, 5));
}

#[test]
fn stored_timestamp_survives_the_database() {
    let mut store = fresh_store();
    let at = ts(1999, 12, 31, 23, 59, 59);
    add(&mut store, "party", at);
    let back = get_todo(&store, 1).unwrap();
    assert_eq!(back.created_at, at);
    assert_eq!(back.description, "party");
}

#[test]
fn check_sets_and_uncheck_clears_the_flag() {
    let mut store = fresh_store();
    add(&mut store, "laundry", ts(2024, 5, 6, 7, 8, 9));
    check_todo(&mut store, 1).unwrap();
    assert!(get_todo(&store, 1).unwrap().completed);
    uncheck_todo(&mut store, 1).unwrap();
    assert!(!get_todo(&store, 1).unwrap().completed);
}

#[test]
fn check_on_missing_id_is_silent() {
    let mut store = fresh_store();
    add(&mut store, "a", ts(2024, 1, 1, 0, 0, 0));
    check_todo(&mut store, 42).unwrap();
    let all = get_all_todo_items(&store).unwrap();
    assert_eq!(all.len(), 1);
    assert!(!all[0].completed);
}

#[test]
fn remove_deletes_only_the_matching_id() {
    let mut store = fresh_store();
    add(&mut store, "a", ts(2024, 1, 1, 0, 0, 0));
    add(&mut store, "b", ts(2024, 1, 1, 0, 0, 1));
    remove_todo_item(&mut store, 1).unwrap();
    let all = get_all_todo_items(&store).unwrap();
    assert_eq!(all.len(), 1);
    assert_eq!(all[0].id, 2);
    assert_eq!(all[0].description, "b");
}

#[test]
fn remove_missing_id_changes_nothing() {
    let mut store = fresh_store();
    add(&mut store, "a", ts(2024, 1, 1, 0, 0, 0));
    remove_todo_item(&mut store, 99).unwrap();
    let all = get_all_todo_items(&store).unwrap();
    assert_eq!(all.len(), 1);
    assert_eq!(all[0].description, "a");
}

#[test]
fn clear_all_leaves_nothing() {
    let mut store = fresh_store();
    add(&mut store, "a", ts(2024, 1, 1, 0, 0, 0));
    add(&mut store, "b", ts(2024, 1, 1, 0, 0, 1));
    add(&mut store, "c", ts(2024, 1, 1, 0, 0, 2));
    remove_all_todos(&mut store).unwrap();
    assert!(get_all_todo_items(&store).unwrap().is_empty());
}

#[test]
fn get_missing_id_is_not_found() {
    let store = fresh_store();
    let r = get_todo(&store, 1);
    assert!(matches!(r, Err(TodoError::NotFound)));
}

#[test]
fn clear_old_removes_only_earlier_tasks() {
    let mut store = fresh_store();
    add(&mut store, "old", ts(2020, 6, 1, 12, 0, 0));
    add(&mut store, "future", ts(2030, 6, 1, 12, 0, 0));
    add(&mut store, "boundary", ts(2025, 1, 1, 0, 0, 0));
    remove_overdue_todos(&mut store, ts(2025, 1, 1, 0, 0, 0)).unwrap();
    let all = get_all_todo_items(&store).unwrap();
    let names: Vec<&str> = all.iter().map(|t| t.description.as_str()).collect();
    assert_eq!(names, vec!["future", "boundary"]);
}

#[test]
fn missing_table_reports_backend_error() {
    let mut store = Store::open_in_memory().unwrap();
    let r = add_todo_item(
        &mut store,
        &TodoItem::new("x".to_string(), ts(2024, 1, 1, 0, 0, 0)),
    );
    assert!(matches!(r, Err(TodoError::Backend(_))));
}

#[test]
fn create_table_is_idempotent() {
    let mut store = fresh_store();
    add(&mut store, "kept", ts(2024, 1, 1, 0, 0, 0));
    create_table(&mut store).unwrap();
    let all = get_all_todo_items(&store).unwrap();
    assert_eq!(all.len(), 1);
    assert_eq!(all[0].description, "kept");
}
