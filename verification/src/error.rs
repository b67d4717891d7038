//! The library's error type.

use vstd::prelude::*;

verus! {

/// What can go wrong when working with the task store.
#[derive(Debug, Clone)]
pub enum TodoError {
    /// No task with the requested id exists.
    NotFound,
    /// A stored creation timestamp is not in the `YYYY-MM-DD HH:MM:SS` form.
    BadTimestamp,
    /// The database reported an error; the field holds its message.
    Backend(String),
}

} // verus!
