use vstd::prelude::*;

use crate::todo::Todo;

verus! {

/// A statement for the store to run, on the connection of the session that
/// asked for it.
pub enum Statement {
    /// Open a transaction.
    Begin,
    /// Read every record, ordered by id.
    SelectAll,
    /// Read the record with this id, if any.
    SelectById { id: i32 },
    /// Add a record; the store picks its id.
    Insert { description: String, done: i8 },
    /// Ask for the id that the last insert on this connection was given.
    LastInsertId,
    /// Replace the description and flag of the record with this id.
    Update { id: i32, description: String, done: i8 },
    /// Remove the record with this id.
    Delete { id: i32 },
    /// Make the open transaction's writes permanent.
    Commit,
    /// Undo the open transaction's writes.
    Rollback,
}

/// What the store answered to a statement.
pub enum Reply {
    Began,
    Rows { rows: Vec<Todo> },
    Row { row: Option<Todo> },
    Affected { count: u64 },
    InsertId { id: u64 },
    Committed,
    RolledBack,
    /// The statement did not complete (lost connection, constraint, ...).
    Failed,
}

/// The one failure of the access layer: the operation did not complete.
#[derive(PartialEq, Eq, Structural, Clone, Copy, Debug)]
pub struct StoreError;

/// What a session asks for after taking a reply.
pub enum Action<T> {
    /// Run this statement and hand back the reply.
    Run(Statement),
    /// The operation is over, with this outcome.
    Finish(Result<T, StoreError>),
}

} // verus!
