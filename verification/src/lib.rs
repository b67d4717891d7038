//! A small task-tracking library: tasks with a description, a completion
//! flag and a creation timestamp, kept in an embedded SQLite database.
//!
//! The database sits behind `store`, where every SQL statement is a
//! trusted wrapper whose contract describes its effect on a model of the
//! table. Everything around it is verified: `timestamp` renders and
//! parses the canonical creation text, `digits` renders ids, `todo_item`
//! decodes rows into tasks and carries the store operations' contracts,
//! `dispatch` maps one command to one operation and the exact text the
//! program prints, and `laws` proves how the operations interact.

pub mod clock;
pub mod digits;
pub mod dispatch;
pub mod error;
pub mod laws;
pub mod store;
pub mod text;
pub mod timestamp;
pub mod todo_item;
