//! A small task list service: the rows of a `tasks` table, the statements the
//! four endpoints issue against it, what each statement does to the table, and
//! the JSON envelopes the endpoints answer with.

pub mod task;
pub mod table;
pub mod json;
pub mod statement;
pub mod handlers;
pub mod laws;
