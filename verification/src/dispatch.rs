//! The command dispatcher: one typed command per invocation, mapped to
//! exactly one store operation, with the text the program prints as the
//! result.

use vstd::prelude::*;

use crate::digits::dec_chars;
use crate::error::TodoError;
use crate::store::{
    find_row, has_id, keep_from, remove_rows, rows_of, set_completed_rows, RowModel, Store,
};
use crate::text::{push_string, text_of};
use crate::timestamp::{parse_ts, ts_chars, Timestamp};
use crate::todo_item::{
    add_todo_item, check_todo, get_all_todo_items, get_todo, item_matches_row, line_chars,
    marker_chars, remove_all_todos, remove_overdue_todos, remove_todo_item, render_todo_item,
    uncheck_todo, TodoItem,
};

verus! {

/// One parsed command-line action.
#[derive(Debug, Clone)]
pub enum Command {
    /// Add a task with the given text.
    Add(String),
    /// Mark the task with the given id completed.
    Check(u32),
    /// Mark the task with the given id not completed.
    Uncheck(u32),
    /// Delete the task with the given id.
    Remove(u32),
    /// Delete every task.
    ClearAll,
    /// Delete every task created before the current moment.
    ClearOld,
    /// Print every task.
    List,
}

/// The printed line for one stored row, assuming its creation text
/// parses.
pub open spec fn row_line(r: RowModel) -> Seq<char> {
    "["@ + marker_chars(r.completed) + "] ID: "@ + dec_chars(r.id) + ", Description: "@
        + r.description + ", Created At: "@ + ts_chars(parse_ts(r.created_at)->0) + "\n"@
}

/// The printed lines of a row sequence, in order.
pub open spec fn list_chars(rows: Seq<RowModel>) -> Seq<char>
    decreases rows.len(),
{
    if rows.len() == 0 {
        Seq::empty()
    } else {
        list_chars(rows.drop_last()) + row_line(rows.last())
    }
}

/// The full text the List action prints: an explicit notice for an empty
/// store, one line per task otherwise.
pub open spec fn list_output(rows: Seq<RowModel>) -> Seq<char> {
    if rows.len() == 0 {
        "No tasks found\n"@
    } else {
        list_chars(rows)
    }
}

/// Fetches every task and renders the List text.
pub fn list_todo_items(store: &Store) -> (r: Result<String, TodoError>)
    ensures
        r matches Ok(out) ==> out@ == list_output(rows_of(*store)),
        r matches Err(e) ==> e matches TodoError::Backend(_) || e matches TodoError::BadTimestamp,
{
    let items = match get_all_todo_items(store) {
        Ok(v) => v,
        Err(e) => {
            return Err(e);
        },
    };
    let ghost rm = rows_of(*store);
    if items.len() == 0 {
        return Ok(text_of("No tasks found\n"));
    }
    let mut out = String::new();
    let mut i: usize = 0;
    while i < items.len()
        invariant
            rm == rows_of(*store),
            items@.len() == rm.len(),
            i <= items@.len(),
            forall|j: int| 0 <= j < items@.len() ==> item_matches_row(#[trigger] items@[j], rm[j]),
            out@ == list_chars(rm.take(i as int)),
        decreases items@.len() - i,
    {
        proof {
            assert(item_matches_row(items@[i as int], rm[i as int]));
        }
        let line = render_todo_item(&items[i]);
        push_string(&mut out, line.as_str());
        proof {
            assert(rm.take(i as int + 1).drop_last() =~= rm.take(i as int));
            assert(rm.take(i as int + 1).last() == rm[i as int]);
            assert(line_chars(items@[i as int]) =~= row_line(rm[i as int]));
            assert(out@ == list_chars(rm.take(i as int + 1)));
        }
        i += 1;
    }
    proof {
        assert(rm.take(rm.len() as int) =~= rm);
    }
    Ok(out)
}

/// Performs one command against the store and yields the text the
/// program prints for it. The contract pins, per command, both the new
/// store contents and the output; a database failure leaves the store as
/// the failing statement left it and is reported, never swallowed.
#[verifier::rlimit(60)]
pub fn run_command(store: &mut Store, cmd: &Command, now: Timestamp) -> (r: Result<
    String,
    TodoError,
>)
    requires
        now.wf(),
        *cmd matches Command::Add(t) ==> t@.len() > 0,
    ensures
        *cmd matches Command::List ==> rows_of(*final(store)) == rows_of(*old(store)) && (r
            matches Ok(out) ==> out@ == list_output(rows_of(*old(store)))),
        *cmd matches Command::Add(t) ==> (r matches Ok(out) ==> out@ == Seq::<char>::empty() && (
        exists|id: int|
            !has_id(rows_of(*old(store)), id) && rows_of(*final(store)) == rows_of(
                *old(store),
            ).push(
                RowModel { id: id, description: t@, completed: false, created_at: ts_chars(now) },
            ))),
        *cmd matches Command::Add(_) ==> (r is Err ==> rows_of(*final(store)) == rows_of(
            *old(store),
        )),
        *cmd matches Command::Check(id) ==> (r matches Err(TodoError::NotFound) ==> find_row(
            rows_of(*old(store)),
            id as int,
        ) is None && rows_of(*final(store)) == rows_of(*old(store))),
        *cmd matches Command::Check(id) ==> (r matches Ok(out) ==> (find_row(
            rows_of(*old(store)),
            id as int,
        ) matches Some(rm) && (if rm.completed {
            rows_of(*final(store)) == rows_of(*old(store)) && out@ == "Task already completed\n"@
        } else {
            rows_of(*final(store)) == set_completed_rows(rows_of(*old(store)), id as int, true)
                && out@ == list_output(rows_of(*final(store)))
        }))),
        *cmd matches Command::Check(id) ==> (r is Err ==> rows_of(*final(store)) == rows_of(
            *old(store),
        ) || rows_of(*final(store)) == set_completed_rows(rows_of(*old(store)), id as int, true)),
        *cmd matches Command::Uncheck(id) ==> (r matches Err(TodoError::NotFound) ==> find_row(
            rows_of(*old(store)),
            id as int,
        ) is None && rows_of(*final(store)) == rows_of(*old(store))),
        *cmd matches Command::Uncheck(id) ==> (r matches Ok(out) ==> (find_row(
            rows_of(*old(store)),
            id as int,
        ) matches Some(rm) && (if !rm.completed {
            rows_of(*final(store)) == rows_of(*old(store)) && out@
                == "Task already not completed\n"@
        } else {
            rows_of(*final(store)) == set_completed_rows(rows_of(*old(store)), id as int, false)
                && out@ == list_output(rows_of(*final(store)))
        }))),
        *cmd matches Command::Uncheck(id) ==> (r is Err ==> rows_of(*final(store)) == rows_of(
            *old(store),
        ) || rows_of(*final(store)) == set_completed_rows(
            rows_of(*old(store)),
            id as int,
            false,
        )),
        *cmd matches Command::Remove(id) ==> (r matches Ok(out) ==> rows_of(*final(store))
            == remove_rows(rows_of(*old(store)), id as int) && out@
            == "Removed task with id: "@ + dec_chars(id as int) + "\n"@),
        *cmd matches Command::Remove(_) ==> (r is Err ==> rows_of(*final(store)) == rows_of(
            *old(store),
        )),
        *cmd matches Command::ClearAll ==> (r matches Ok(out) ==> rows_of(*final(store))
            == Seq::<RowModel>::empty() && out@ == "Cleared all todos\n"@),
        *cmd matches Command::ClearAll ==> (r is Err ==> rows_of(*final(store)) == rows_of(
            *old(store),
        )),
        *cmd matches Command::ClearOld ==> (r matches Ok(out) ==> rows_of(*final(store))
            == keep_from(rows_of(*old(store)), ts_chars(now)) && out@
            == "Cleared all overdue todos\n"@),
        *cmd matches Command::ClearOld ==> (r is Err ==> rows_of(*final(store)) == rows_of(
            *old(store),
        )),
{
    match cmd {
        Command::List => list_todo_items(store),
        Command::Add(task) => {
            let item = TodoItem::new(task.clone(), now);
            match add_todo_item(store, &item) {
                Ok(()) => Ok(String::new()),
                Err(e) => Err(e),
            }
        },
        Command::Check(id) => {
            let item = match get_todo(store, *id) {
                Ok(t) => t,
                Err(e) => {
                    return Err(e);
                },
            };
            if item.completed {
                return Ok(text_of("Task already completed\n"));
            }
            match check_todo(store, *id) {
                Ok(()) => (),
                Err(e) => {
                    return Err(e);
                },
            }
            list_todo_items(store)
        },
        Command::Uncheck(id) => {
            let item = match get_todo(store, *id) {
                Ok(t) => t,
                Err(e) => {
                    return Err(e);
                },
            };
            if !item.completed {
                return Ok(text_of("Task already not completed\n"));
            }
            match uncheck_todo(store, *id) {
                Ok(()) => (),
                Err(e) => {
                    return Err(e);
                },
            }
            list_todo_items(store)
        },
        Command::Remove(id) => {
            match remove_todo_item(store, *id) {
                Ok(()) => (),
                Err(e) => {
                    return Err(e);
                },
            }
            let mut s = text_of("Removed task with id: ");
            let id_text = crate::digits::u32_to_string(*id);
            push_string(&mut s, id_text.as_str());
            push_string(&mut s, "\n");
            proof {
                assert(s@ =~= "Removed task with id: "@ + dec_chars(*id as int) + "\n"@);
            }
            Ok(s)
        },
        Command::ClearAll => {
            match remove_all_todos(store) {
                Ok(()) => Ok(text_of("Cleared all todos\n")),
                Err(e) => Err(e),
            }
        },
        Command::ClearOld => {
            match remove_overdue_todos(store, now) {
                Ok(()) => Ok(text_of("Cleared all overdue todos\n")),
                Err(e) => Err(e),
            }
        },
    }
}

} // verus!
