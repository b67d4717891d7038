use todo_app::clock::{now_local, now_utc};
use todo_app::digits::u32_to_string;
use todo_app::error::TodoError;
use todo_app::store::TodoRow;
use todo_app::timestamp::{format_timestamp, Timestamp};
use todo_app::todo_item::{decode_todo_row, render_todo_item, TodoItem};

fn ts(year: u16, month: u8, day: u8, hour: u8, minute: u8, second: u8) -> Timestamp {
    Timestamp { year, month, day, hour, minute, second }
}

fn row(id: u32, description: &str, completed: bool, created_at: &str) -> TodoRow {
    TodoRow {
        id,
        description: description.to_string(),
        completed,
        created_at: created_at.to_string(),
    }
}

#[test]
fn renders_digits() {
    assert_eq!(u32_to_string(0), "0");
    assert_eq!(u32_to_string(7), "7");
    assert_eq!(u32_to_string(10), "10");
    assert_eq!(u32_to_string(305), "305");
    assert_eq!(u32_to_string(u32::MAX), "4294967295");
}

#[test]
fn formats_timestamp_zero_padded() {
    assert_eq!(format_timestamp(&ts(2024, 1, 2, 3, 4, 5)), "2024-01-02 03:04:05");
    assert_eq!(format_timestamp(&ts(999, 12, 31, 23, 59, 59)), "0999-12-31 23:59:59");
    assert_eq!(format_timestamp(&ts(0, 1, 1, 0, 0, 0)), "0000-01-01 00:00:00");
}

#[test]
fn decodes_canonical_timestamp() {
    let item = decode_todo_row(&row(4, "water plants", true, "2024-01-02 03:04:05")).unwrap();
    assert_eq!(item.id, 4);
    assert_eq!(item.description, "water plants");
    assert!(item.completed);
    assert_eq!(item.created_at, ts(2024, 1, 2, 3, 4, 5));
}

#[test]
fn rejects_malformed_timestamps() {
    for bad in [
        "",
        "garbage",
        "2024-01-02",
        "2024-01-02T03:04:05",
        "2024-13-02 03:04:05",
        "2024-00-02 03:04:05",
        "2024-01-00 03:04:05",
        "2024-01-02 24:04:05",
        "2024-01-02 03:60:05",
        "2024-01-02 03:04:60",
        "2024-01-02 03:04:0x",
        "2024-01-02 03:04:055",
    ] {
        let r = decode_todo_row(&row(1, "task", false, bad));
        assert!(matches!(r, Err(TodoError::BadTimestamp)), "accepted {bad:?}");
    }
}

#[test]
fn round_trips_rendered_timestamp() {
    let t = ts(1987, 6, 30, 9, 58, 7);
    let text = format_timestamp(&t);
    let item = decode_todo_row(&row(1, "x", false, &text)).unwrap();
    assert_eq!(item.created_at, t);
}

#[test]
fn renders_task_line() {
    let item = TodoItem {
        id: 12,
        description: "buy milk".to_string(),
        completed: false,
        created_at: ts(2024, 1, 2, 3, 4, 5),
    };
    assert_eq!(
        render_todo_item(&item),
        "[ ] ID: 12, Description: buy milk, Created At: 2024-01-02 03:04:05\n"
    );
    let done = TodoItem { completed: true, ..item };
    assert_eq!(
        render_todo_item(&done),
        "[X] ID: 12, Description: buy milk, Created At: 2024-01-02 03:04:05\n"
    );
}

#[test]
fn new_task_starts_clean() {
    let t = TodoItem::new("call home".to_string(), ts(2024, 2, 3, 4, 5, 6));
    assert_eq!(t.id, 0);
    assert_eq!(t.description, "call home");
    assert!(!t.completed);
    assert_eq!(t.created_at, ts(2024, 2, 3, 4, 5, 6));
}

#[test]
fn clock_yields_valid_timestamps() {
    if let Some(t) = now_utc() {
        assert!(t.valid());
    }
    if let Some(t) = now_local() {
        assert!(t.valid());
    }
}
