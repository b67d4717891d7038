//! Task records: the decoded task value, the typed mapping from a raw
//! stored row to it, its printed line, and the verified operations on the
//! store.

use vstd::prelude::*;

use crate::digits::{dec_chars, u32_to_string};
use crate::error::TodoError;
use crate::store::{
    delete_all_rows, delete_row, delete_rows_before, find_row, has_id, insert_row, keep_from,
    query_row_by_id, remove_rows, rows_of, select_all_rows, set_completed_rows, set_row_completed,
    RowModel, Store, TodoRow,
};
use crate::text::{chars_of, push_string};
use crate::timestamp::{format_timestamp, parse_timestamp, parse_ts, ts_chars, Timestamp};

verus! {

/// One task: id, description, completion flag and creation timestamp.
#[derive(Debug, Clone)]
pub struct TodoItem {
    pub id: u32,
    pub description: String,
    pub completed: bool,
    pub created_at: Timestamp,
}

impl TodoItem {
    /// A fresh, uncompleted task. The store assigns the real id on
    /// insertion; until then it is zero.
    pub fn new(description: String, created_at: Timestamp) -> (t: TodoItem)
        ensures
            t.id == 0,
            t.description@ == description@,
            !t.completed,
            t.created_at == created_at,
    {
        TodoItem { id: 0, description, completed: false, created_at }
    }
}

/// Whether the decoded task `t` faithfully renders the stored row `r`.
pub open spec fn item_matches_row(t: TodoItem, r: RowModel) -> bool {
    &&& t.id as int == r.id
    &&& t.description@ == r.description
    &&& t.completed == r.completed
    &&& parse_ts(r.created_at) == Some(t.created_at)
}

/// The typed mapping from a raw stored row to a task: every field is
/// already plain but the creation timestamp, which must parse.
pub fn decode_todo_row(row: &TodoRow) -> (r: Result<TodoItem, TodoError>)
    ensures
        r matches Ok(t) ==> item_matches_row(t, row@),
        r matches Err(e) ==> e matches TodoError::BadTimestamp && parse_ts(row@.created_at)
            is None,
        parse_ts(row@.created_at) is Some ==> r is Ok,
{
    let cs = chars_of(row.created_at.as_str());
    match parse_timestamp(&cs) {
        Some(ts) => Ok(
            TodoItem {
                id: row.id,
                description: row.description.clone(),
                completed: row.completed,
                created_at: ts,
            },
        ),
        None => Err(TodoError::BadTimestamp),
    }
}

/// The completion marker of a printed task line.
pub open spec fn marker_chars(completed: bool) -> Seq<char> {
    if completed {
        "X"@
    } else {
        " "@
    }
}

/// The printed line for one task, newline included.
pub open spec fn line_chars(t: TodoItem) -> Seq<char> {
    "["@ + marker_chars(t.completed) + "] ID: "@ + dec_chars(t.id as int) + ", Description: "@
        + t.description@ + ", Created At: "@ + ts_chars(t.created_at) + "\n"@
}

/// Renders the printed line for one task.
pub fn render_todo_item(t: &TodoItem) -> (s: String)
    requires
        t.created_at.wf(),
    ensures
        s@ == line_chars(*t),
{
    let mut s = String::new();
    push_string(&mut s, "[");
    if t.completed {
        push_string(&mut s, "X");
    } else {
        push_string(&mut s, " ");
    }
    push_string(&mut s, "] ID: ");
    let id_text = u32_to_string(t.id);
    push_string(&mut s, id_text.as_str());
    push_string(&mut s, ", Description: ");
    push_string(&mut s, t.description.as_str());
    push_string(&mut s, ", Created At: ");
    let ts_text = format_timestamp(&t.created_at);
    push_string(&mut s, ts_text.as_str());
    push_string(&mut s, "\n");
    proof {
        assert(s@ =~= line_chars(*t));
    }
    s
}

/// Inserts `item` as a new row: the store picks a fresh id, the flag
/// starts clear, and the creation timestamp is stored in its canonical
/// text form. The id and flag carried by `item` itself are not stored,
/// exactly as a fresh task expects.
pub fn add_todo_item(store: &mut Store, item: &TodoItem) -> (r: Result<(), TodoError>)
    requires
        item.created_at.wf(),
    ensures
        r is Ok ==> exists|id: int|
            !has_id(rows_of(*old(store)), id) && rows_of(*final(store)) == rows_of(
                *old(store),
            ).push(
                RowModel {
                    id: id,
                    description: item.description@,
                    completed: false,
                    created_at: ts_chars(item.created_at),
                },
            ),
        r is Err ==> rows_of(*final(store)) == rows_of(*old(store)),
        r matches Err(e) ==> e matches TodoError::Backend(_),
{
    let ts_text = format_timestamp(&item.created_at);
    insert_row(store, item.description.as_str(), ts_text.as_str())
}

/// Fetches the task with the given id; `NotFound` when no row carries it,
/// `BadTimestamp` when its stored creation text does not parse.
pub fn get_todo(store: &Store, id: u32) -> (r: Result<TodoItem, TodoError>)
    ensures
        r matches Ok(t) ==> find_row(rows_of(*store), id as int) matches Some(rm)
            && item_matches_row(t, rm),
        r matches Err(TodoError::NotFound) ==> find_row(rows_of(*store), id as int) is None,
        r matches Err(TodoError::BadTimestamp) ==> find_row(rows_of(*store), id as int) matches
            Some(rm) && parse_ts(rm.created_at) is None,
{
    match query_row_by_id(store, id) {
        Err(e) => Err(e),
        Ok(None) => Err(TodoError::NotFound),
        Ok(Some(row)) => decode_todo_row(&row),
    }
}

/// Fetches every task, in store order.
pub fn get_all_todo_items(store: &Store) -> (r: Result<Vec<TodoItem>, TodoError>)
    ensures
        r matches Ok(v) ==> v@.len() == rows_of(*store).len() && (forall|j: int|
            0 <= j < v@.len() ==> item_matches_row(#[trigger] v@[j], rows_of(*store)[j])),
        r matches Err(e) ==> e matches TodoError::Backend(_) || e matches TodoError::BadTimestamp,
        r matches Err(TodoError::BadTimestamp) ==> exists|j: int|
            0 <= j < rows_of(*store).len() && parse_ts(
                #[trigger] rows_of(*store)[j].created_at,
            ) is None,
{
    let rows = match select_all_rows(store) {
        Ok(v) => v,
        Err(e) => {
            return Err(e);
        },
    };
    let ghost rm = rows_of(*store);
    let mut items: Vec<TodoItem> = Vec::new();
    let mut i: usize = 0;
    while i < rows.len()
        invariant
            rm == rows_of(*store),
            rows@.map_values(|row: TodoRow| row@) == rm,
            items@.len() == i,
            i <= rows@.len(),
            forall|j: int| 0 <= j < i ==> item_matches_row(#[trigger] items@[j], rm[j]),
        decreases rows@.len() - i,
    {
        proof {
            assert(rm[i as int] == rows@.map_values(|row: TodoRow| row@)[i as int]);
        }
        match decode_todo_row(&rows[i]) {
            Ok(t) => {
                items.push(t);
            },
            Err(e) => {
                proof {
                    assert(rows@.map_values(|row: TodoRow| row@)[i as int] == rows@[i as int]@);
                    assert(parse_ts(rows_of(*store)[i as int].created_at) is None);
                }
                return Err(e);
            },
        }
        i += 1;
    }
    proof {
        assert(rm.len() == rows@.map_values(|row: TodoRow| row@).len());
    }
    Ok(items)
}

/// Marks the task with the given id completed. A missing id matches no
/// row and is silent success.
pub fn check_todo(store: &mut Store, id: u32) -> (r: Result<(), TodoError>)
    ensures
        r is Ok ==> rows_of(*final(store)) == set_completed_rows(
            rows_of(*old(store)),
            id as int,
            true,
        ),
        r is Err ==> rows_of(*final(store)) == rows_of(*old(store)),
        r matches Err(e) ==> e matches TodoError::Backend(_),
{
    set_row_completed(store, id, true)
}

/// Marks the task with the given id not completed. A missing id matches
/// no row and is silent success.
pub fn uncheck_todo(store: &mut Store, id: u32) -> (r: Result<(), TodoError>)
    ensures
        r is Ok ==> rows_of(*final(store)) == set_completed_rows(
            rows_of(*old(store)),
            id as int,
            false,
        ),
        r is Err ==> rows_of(*final(store)) == rows_of(*old(store)),
        r matches Err(e) ==> e matches TodoError::Backend(_),
{
    set_row_completed(store, id, false)
}

/// Deletes the task with the given id. A missing id is silent success.
pub fn remove_todo_item(store: &mut Store, id: u32) -> (r: Result<(), TodoError>)
    ensures
        r is Ok ==> rows_of(*final(store)) == remove_rows(rows_of(*old(store)), id as int),
        r is Err ==> rows_of(*final(store)) == rows_of(*old(store)),
        r matches Err(e) ==> e matches TodoError::Backend(_),
{
    delete_row(store, id)
}

/// Deletes every task whose stored creation text comes before the given
/// moment.
pub fn remove_overdue_todos(store: &mut Store, now: Timestamp) -> (r: Result<(), TodoError>)
    requires
        now.wf(),
    ensures
        r is Ok ==> rows_of(*final(store)) == keep_from(rows_of(*old(store)), ts_chars(now)),
        r is Err ==> rows_of(*final(store)) == rows_of(*old(store)),
        r matches Err(e) ==> e matches TodoError::Backend(_),
{
    let cutoff = format_timestamp(&now);
    delete_rows_before(store, cutoff.as_str())
}

/// Deletes every task.
pub fn remove_all_todos(store: &mut Store) -> (r: Result<(), TodoError>)
    ensures
        r is Ok ==> rows_of(*final(store)) == Seq::<RowModel>::empty(),
        r is Err ==> rows_of(*final(store)) == rows_of(*old(store)),
        r matches Err(e) ==> e matches TodoError::Backend(_),
{
    delete_all_rows(store)
}

} // verus!
