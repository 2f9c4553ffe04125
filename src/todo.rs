use vstd::prelude::*;

verus! {

/// One item of the todo list, as a row of the `todos` table holds it.
#[derive(Clone, Debug, PartialEq, Eq)]
pub struct Todo {
    pub id: i64,
    pub description: String,
    pub done: bool,
}

/// The mathematical value of a [`Todo`].
pub struct TodoView {
    pub id: int,
    pub description: Seq<char>,
    pub done: bool,
}

impl View for Todo {
    type V = TodoView;

    open spec fn view(&self) -> TodoView {
        TodoView { id: self.id as int, description: self.description@, done: self.done }
    }
}

/// The fields a caller supplies to create an item.
#[derive(Clone, Debug, PartialEq, Eq)]
pub struct NewTodo {
    pub description: String,
    pub done: bool,
}

/// The ways a repository operation or a request can fail.
#[derive(PartialEq, Eq, Structural, Clone, Copy, Debug)]
pub enum TodoError {
    /// No row has the referenced id.
    NotFound,
    /// A required field is missing or malformed.
    Validation,
    /// The store could not be reached or the write failed.
    Persistence,
}

/// The done flag of a new item: false unless the caller gave one.
pub open spec fn done_or_default(done: Option<bool>) -> bool {
    match done {
        Some(b) => b,
        None => false,
    }
}

impl NewTodo {
    /// Builds the creation input from the decoded request fields: the
    /// description must be present, and `done` is false unless given.
    pub fn from_fields(description: Option<String>, done: Option<bool>) -> (r: Result<
        NewTodo,
        TodoError,
    >)
        ensures
            description is None <==> r == Err::<NewTodo, TodoError>(TodoError::Validation),
            description matches Some(d) ==> r is Ok && r->Ok_0.description@ == d@
                && r->Ok_0.done == done_or_default(done),
    {
        match description {
            None => Err(TodoError::Validation),
            Some(d) => {
                let flag = match done {
                    Some(b) => b,
                    None => false,
                };
                Ok(NewTodo { description: d, done: flag })
            },
        }
    }
}

/// The fields a caller supplies to replace an item's contents.
#[derive(Clone, Debug, PartialEq, Eq)]
pub struct TodoUpdate {
    pub description: String,
    pub done: bool,
}

impl TodoUpdate {
    /// Builds the update input from the decoded request fields: an update
    /// replaces both fields, so both must be present.
    pub fn from_fields(description: Option<String>, done: Option<bool>) -> (r: Result<
        TodoUpdate,
        TodoError,
    >)
        ensures
            (description is None || done is None) <==> r == Err::<TodoUpdate, TodoError>(
                TodoError::Validation,
            ),
            description is Some && done is Some ==> r is Ok && r->Ok_0.description@
                == description->Some_0@ && r->Ok_0.done == done->Some_0,
    {
        match (description, done) {
            (Some(d), Some(b)) => Ok(TodoUpdate { description: d, done: b }),
            _ => Err(TodoError::Validation),
        }
    }
}

} // verus!
