//! The task store: one SQLite table of task rows behind a handle whose
//! contents are modelled as a sequence of rows. Every statement the store
//! runs is wrapped in a trusted function whose contract states, over that
//! model, what the statement does.

use vstd::prelude::*;

use crate::error::TodoError;
use crate::timestamp::lex_lt;

verus! {

/// The mathematical model of one stored row.
#[verifier::ext_equal]
pub struct RowModel {
    pub id: int,
    pub description: Seq<char>,
    pub completed: bool,
    pub created_at: Seq<char>,
}

/// One row as the database hands it back: plain values only. The creation
/// timestamp stays text here; parsing it is the decoder's job.
#[derive(Debug, Clone)]
pub struct TodoRow {
    pub id: u32,
    pub description: String,
    pub completed: bool,
    pub created_at: String,
}

impl View for TodoRow {
    type V = RowModel;

    open spec fn view(&self) -> RowModel {
        RowModel {
            id: self.id as int,
            description: self.description@,
            completed: self.completed,
            created_at: self.created_at@,
        }
    }
}

/// A handle to the embedded database file that holds the task table.
#[verifier::external_body]
pub struct Store {
    conn: rusqlite::Connection,
}

/// The rows of the task table behind `s`, in the order the database hands
/// them out (rowid order).
pub uninterp spec fn rows_of(s: Store) -> Seq<RowModel>;

/// Whether some row carries the given id.
pub open spec fn has_id(rows: Seq<RowModel>, id: int) -> bool {
    exists|i: int| 0 <= i < rows.len() && #[trigger] rows[i].id == id
}

/// The first row carrying the given id, if any.
pub open spec fn find_row(rows: Seq<RowModel>, id: int) -> Option<RowModel>
    decreases rows.len(),
{
    if rows.len() == 0 {
        None
    } else if rows[0].id == id {
        Some(rows[0])
    } else {
        find_row(rows.drop_first(), id)
    }
}

/// Every row carrying the given id with its completion flag set to `done`,
/// all other rows unchanged, order kept.
pub open spec fn set_completed_rows(rows: Seq<RowModel>, id: int, done: bool) -> Seq<RowModel> {
    rows.map_values(
        |r: RowModel|
            if r.id == id {
                RowModel { completed: done, ..r }
            } else {
                r
            },
    )
}

/// The rows without those carrying the given id.
pub open spec fn remove_rows(rows: Seq<RowModel>, id: int) -> Seq<RowModel> {
    rows.filter(|r: RowModel| r.id != id)
}

/// The rows whose creation text does not come before `cutoff` in byte
/// order.
pub open spec fn keep_from(rows: Seq<RowModel>, cutoff: Seq<char>) -> Seq<RowModel> {
    rows.filter(|r: RowModel| !lex_lt(r.created_at, cutoff))
}

impl Store {
    /// Relies on `rusqlite::Connection::open`: opens (creating it if
    /// absent) the database file at `path`. Nothing is known about the
    /// rows such a file holds.
    #[verifier::external_body]
    pub fn open(path: &str) -> (r: Result<Store, TodoError>)
    {
        match rusqlite::Connection::open(path) {
            Ok(conn) => Ok(Store { conn }),
            Err(e) => Err(TodoError::Backend(format!("{}", e))),
        }
    }

    /// Relies on `rusqlite::Connection::open_in_memory`: a fresh in-memory
    /// database holds no rows at all.
    #[verifier::external_body]
    pub fn open_in_memory() -> (r: Result<Store, TodoError>)
        ensures
            r matches Ok(s) ==> rows_of(s) == Seq::<RowModel>::empty(),
    {
        match rusqlite::Connection::open_in_memory() {
            Ok(conn) => Ok(Store { conn }),
            Err(e) => Err(TodoError::Backend(format!("{}", e))),
        }
    }
}

/// Relies on `rusqlite::Connection::execute` running `CREATE TABLE IF NOT
/// EXISTS`: idempotently creates the task table and touches no rows.
#[verifier::external_body]
pub fn create_table(store: &mut Store) -> (r: Result<(), TodoError>)
    ensures
        rows_of(*final(store)) == rows_of(*old(store)),
        r matches Err(e) ==> e matches TodoError::Backend(_),
{
    let sql = "CREATE TABLE IF NOT EXISTS TodoItem (
                id INTEGER PRIMARY KEY,
                description TEXT NOT NULL,
                completed BOOLEAN NOT NULL,
                created_at DATE NOT NULL DEFAULT CURRENT_TIMESTAMP
                )";
    match store.conn.execute(sql, ()) {
        Ok(_) => Ok(()),
        Err(e) => Err(TodoError::Backend(format!("{}", e))),
    }
}

/// Relies on `rusqlite::Connection::execute` running `INSERT`: on success
/// SQLite assigns the new row a rowid at least one larger than every
/// rowid in use, so the row is fresh and comes last in rowid order, with
/// the given description, the flag clear and the given creation text; a
/// failed statement changes nothing.
#[verifier::external_body]
pub(crate) fn insert_row(store: &mut Store, description: &str, created_at: &str) -> (r: Result<
    (),
    TodoError,
>)
    ensures
        r is Ok ==> exists|id: int|
            !has_id(rows_of(*old(store)), id) && rows_of(*final(store)) == rows_of(
                *old(store),
            ).push(
                RowModel {
                    id: id,
                    description: description@,
                    completed: false,
                    created_at: created_at@,
                },
            ),
        r is Err ==> rows_of(*final(store)) == rows_of(*old(store)),
        r matches Err(e) ==> e matches TodoError::Backend(_),
{
    let sql = "INSERT INTO TodoItem (description, completed, created_at) VALUES (?1, ?2, ?3)";
    match store.conn.execute(sql, (description, false, created_at)) {
        Ok(_) => Ok(()),
        Err(e) => Err(TodoError::Backend(format!("{}", e))),
    }
}

/// Relies on `rusqlite::Connection::query_row` running `SELECT ... WHERE
/// id = ?`: hands back the first matching row, or reports that none
/// matched.
#[verifier::external_body]
pub(crate) fn query_row_by_id(store: &Store, id: u32) -> (r: Result<Option<TodoRow>, TodoError>)
    ensures
        r matches Ok(found) ==> (match found {
            Some(row) => find_row(rows_of(*store), id as int) == Some(row@),
            None => find_row(rows_of(*store), id as int) is None,
        }),
        r matches Err(e) ==> e matches TodoError::Backend(_),
{
    let sql = "SELECT id, description, completed, created_at FROM TodoItem WHERE id = ?1";
    let res = store.conn.query_row(sql, [id], |row| {
        Ok(TodoRow { id: row.get(0)?, description: row.get(1)?, completed: row.get(2)?, created_at: row.get(3)? })
    });
    match res {
        Ok(row) => Ok(Some(row)),
        Err(rusqlite::Error::QueryReturnedNoRows) => Ok(None),
        Err(e) => Err(TodoError::Backend(format!("{}", e))),
    }
}

/// Relies on `rusqlite::Statement::query_map` running `SELECT` over the
/// whole table: hands back every row in the order the database yields
/// them.
#[verifier::external_body]
pub(crate) fn select_all_rows(store: &Store) -> (r: Result<Vec<TodoRow>, TodoError>)
    ensures
        r matches Ok(v) ==> v@.map_values(|row: TodoRow| row@) == rows_of(*store),
        r matches Err(e) ==> e matches TodoError::Backend(_),
{
    let sql = "SELECT id, description, completed, created_at FROM TodoItem";
    let res = (|| {
        let mut stmt = store.conn.prepare(sql)?;
        let rows = stmt.query_map([], |row| {
            Ok(TodoRow { id: row.get(0)?, description: row.get(1)?, completed: row.get(2)?, created_at: row.get(3)? })
        })?;
        rows.collect::<rusqlite::Result<Vec<TodoRow>>>()
    })();
    res.map_err(|e| TodoError::Backend(format!("{}", e)))
}

/// Relies on `rusqlite::Connection::execute` running `UPDATE ... WHERE id
/// = ?`: on success every matching row gets the given flag and no other
/// row changes; a failed statement changes nothing. A missing id matches
/// no row and is silent success.
#[verifier::external_body]
pub(crate) fn set_row_completed(store: &mut Store, id: u32, done: bool) -> (r: Result<
    (),
    TodoError,
>)
    ensures
        r is Ok ==> rows_of(*final(store)) == set_completed_rows(
            rows_of(*old(store)),
            id as int,
            done,
        ),
        r is Err ==> rows_of(*final(store)) == rows_of(*old(store)),
        r matches Err(e) ==> e matches TodoError::Backend(_),
{
    let sql = "UPDATE TodoItem SET completed = ?1 WHERE id = ?2";
    match store.conn.execute(sql, (done, id)) {
        Ok(_) => Ok(()),
        Err(e) => Err(TodoError::Backend(format!("{}", e))),
    }
}

/// Relies on `rusqlite::Connection::execute` running `DELETE ... WHERE id
/// = ?`: on success exactly the matching rows are gone; a failed statement
/// changes nothing. A missing id matches no row and is silent success.
#[verifier::external_body]
pub(crate) fn delete_row(store: &mut Store, id: u32) -> (r: Result<(), TodoError>)
    ensures
        r is Ok ==> rows_of(*final(store)) == remove_rows(rows_of(*old(store)), id as int),
        r is Err ==> rows_of(*final(store)) == rows_of(*old(store)),
        r matches Err(e) ==> e matches TodoError::Backend(_),
{
    let sql = "DELETE FROM TodoItem WHERE id = ?1";
    match store.conn.execute(sql, [id]) {
        Ok(_) => Ok(()),
        Err(e) => Err(TodoError::Backend(format!("{}", e))),
    }
}

/// Relies on `rusqlite::Connection::execute` running `DELETE ... WHERE
/// created_at < ?`: on success exactly the rows whose stored creation
/// text comes before the cutoff in SQLite's byte order (the `BINARY`
/// collation, `memcmp` on the UTF-8 bytes, which agrees with `lex_lt` on
/// the characters) are gone; a failed statement changes nothing. Stored
/// creation values are the canonical timestamp texts this library writes,
/// which SQLite keeps as text.
#[verifier::external_body]
pub(crate) fn delete_rows_before(store: &mut Store, cutoff: &str) -> (r: Result<(), TodoError>)
    ensures
        r is Ok ==> rows_of(*final(store)) == keep_from(rows_of(*old(store)), cutoff@),
        r is Err ==> rows_of(*final(store)) == rows_of(*old(store)),
        r matches Err(e) ==> e matches TodoError::Backend(_),
{
    let sql = "DELETE FROM TodoItem WHERE created_at < ?1";
    match store.conn.execute(sql, [cutoff]) {
        Ok(_) => Ok(()),
        Err(e) => Err(TodoError::Backend(format!("{}", e))),
    }
}

/// Relies on `rusqlite::Connection::execute` running `DELETE` without a
/// condition: on success the table is empty; a failed statement changes
/// nothing.
#[verifier::external_body]
pub(crate) fn delete_all_rows(store: &mut Store) -> (r: Result<(), TodoError>)
    ensures
        r is Ok ==> rows_of(*final(store)) == Seq::<RowModel>::empty(),
        r is Err ==> rows_of(*final(store)) == rows_of(*old(store)),
        r matches Err(e) ==> e matches TodoError::Backend(_),
{
    match store.conn.execute("DELETE FROM TodoItem", []) {
        Ok(_) => Ok(()),
        Err(e) => Err(TodoError::Backend(format!("{}", e))),
    }
}

} // verus!
