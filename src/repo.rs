//! The five repository operations. Each one is a single statement against
//! the `todos` table; the store runs the statement and these functions turn
//! its reply into the operation's typed result.
use vstd::prelude::*;
use crate::todo::{Todo, TodoView, TodoError};

verus! {

/// The store could not run a statement (unreachable, or the write failed).
#[derive(PartialEq, Eq, Structural, Clone, Copy, Debug)]
pub struct StoreFailure;

/// The result of listing, given the rows the store returned.
pub open spec fn list_outcome(reply: Result<Seq<TodoView>, StoreFailure>) -> Result<
    Seq<TodoView>,
    TodoError,
> {
    match reply {
        Ok(rows) => Ok(rows),
        Err(_) => Err(TodoError::Persistence),
    }
}

/// The result of creating, given the id the store assigned to the new row.
pub open spec fn create_outcome(reply: Result<int, StoreFailure>) -> Result<int, TodoError> {
    match reply {
        Ok(id) => Ok(id),
        Err(_) => Err(TodoError::Persistence),
    }
}

/// The result of reading, given the row (if any) the store found.
pub open spec fn read_outcome(reply: Result<Option<TodoView>, StoreFailure>) -> Result<
    TodoView,
    TodoError,
> {
    match reply {
        Ok(Some(row)) => Ok(row),
        Ok(None) => Err(TodoError::NotFound),
        Err(_) => Err(TodoError::Persistence),
    }
}

/// The result of an update or a delete, given how many rows the statement
/// affected: none affected means that no row had the id.
pub open spec fn affected_outcome(reply: Result<int, StoreFailure>) -> Result<(), TodoError> {
    match reply {
        Ok(n) => if n == 0 {
            Err(TodoError::NotFound)
        } else {
            Ok(())
        },
        Err(_) => Err(TodoError::Persistence),
    }
}

pub open spec fn rows_view(rows: Seq<Todo>) -> Seq<TodoView> {
    rows.map_values(|t: Todo| t@)
}

/// Lists every item, given the store's reply to
/// `SELECT id, description, done FROM todos ORDER BY id`.
pub fn list(reply: Result<Vec<Todo>, StoreFailure>) -> (r: Result<Vec<Todo>, TodoError>)
    ensures
        list_outcome(
            match reply {
                Ok(v) => Ok(rows_view(v@)),
                Err(e) => Err(e),
            },
        ) == match r {
            Ok(v) => Ok(rows_view(v@)),
            Err(e) => Err::<Seq<TodoView>, TodoError>(e),
        },
{
    match reply {
        Ok(rows) => Ok(rows),
        Err(_) => Err(TodoError::Persistence),
    }
}

/// Creates an item, given the store's reply to
/// `INSERT INTO todos (description, done) VALUES (?, ?)`: the id of the new row.
pub fn create(reply: Result<i64, StoreFailure>) -> (r: Result<i64, TodoError>)
    ensures
        create_outcome(
            match reply {
                Ok(id) => Ok(id as int),
                Err(e) => Err(e),
            },
        ) == match r {
            Ok(id) => Ok(id as int),
            Err(e) => Err::<int, TodoError>(e),
        },
{
    match reply {
        Ok(id) => Ok(id),
        Err(_) => Err(TodoError::Persistence),
    }
}

/// Reads one item, given the store's reply to
/// `SELECT id, description, done FROM todos WHERE id = ?`.
pub fn read(reply: Result<Option<Todo>, StoreFailure>) -> (r: Result<Todo, TodoError>)
    ensures
        read_outcome(
            match reply {
                Ok(Some(t)) => Ok(Some(t@)),
                Ok(None) => Ok(None),
                Err(e) => Err(e),
            },
        ) == match r {
            Ok(t) => Ok(t@),
            Err(e) => Err::<TodoView, TodoError>(e),
        },
{
    match reply {
        Ok(Some(row)) => Ok(row),
        Ok(None) => Err(TodoError::NotFound),
        Err(_) => Err(TodoError::Persistence),
    }
}

/// Replaces the description and the done flag of one item, given the number
/// of rows that `UPDATE todos SET description = ?, done = ? WHERE id = ?`
/// affected.
pub fn update(reply: Result<u64, StoreFailure>) -> (r: Result<(), TodoError>)
    ensures
        r == affected_outcome(
            match reply {
                Ok(n) => Ok(n as int),
                Err(e) => Err(e),
            },
        ),
{
    match reply {
        Ok(n) => {
            if n == 0 {
                Err(TodoError::NotFound)
            } else {
                Ok(())
            }
        },
        Err(_) => Err(TodoError::Persistence),
    }
}

/// Removes one item, given the number of rows that
/// `DELETE FROM todos WHERE id = ?` affected.
pub fn delete(reply: Result<u64, StoreFailure>) -> (r: Result<(), TodoError>)
    ensures
        r == affected_outcome(
            match reply {
                Ok(n) => Ok(n as int),
                Err(e) => Err(e),
            },
        ),
{
    match reply {
        Ok(n) => {
            if n == 0 {
                Err(TodoError::NotFound)
            } else {
                Ok(())
            }
        },
        Err(_) => Err(TodoError::Persistence),
    }
}

} // verus!
