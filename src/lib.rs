//! A small todo-list service: the data model, the five repository
//! operations over the `todos` table, and the mapping of their outcomes to
//! HTTP responses.
pub mod todo;
pub mod repo;
pub mod table;
pub mod http;
