//! An owner-scoped todo list: the data model, request validation, an
//! in-memory repository and the request handlers' decisions, verified.
//!
//! `table::TodoTable` is an in-memory store with the semantics of the todo
//! table (owner-scoped lookups, coalescing edits, identifier order), and the
//! handlers in `service` are verified against it. A server that keeps its rows
//! in a database instead runs its own statements and hands their outcomes to
//! the reply builders of `service` (`user_owner`, `created_reply`,
//! `found_reply`, `list_reply`), which decide every reply.

pub mod ids;
pub mod laws;
pub mod service;
pub mod table;
pub mod todo;
pub mod validate;
