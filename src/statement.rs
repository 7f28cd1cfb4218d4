//! The one SQL statement each endpoint issues, with its bound values.

use vstd::prelude::*;
use crate::task::{TaskRow, CreateTaskRow, CreateTaskRequest, UpdateTaskRequest};

verus! {

/// A parameterized statement against the `tasks` table.
#[allow(inconsistent_fields)]
pub enum Statement {
    /// `SELECT * FROM tasks ORDER BY id`
    SelectAll,
    /// `INSERT INTO tasks (name, priority) VALUES ($1, $2) RETURNING id`
    Insert { name: String, priority: Option<i32> },
    /// `UPDATE tasks SET name = $2, priority = $3 WHERE id = $1`
    Update { id: i32, name: Option<String>, priority: Option<i32> },
    /// `DELETE FROM tasks WHERE id = $1`
    Delete { id: i32 },
}

/// What a statement that succeeded hands back.
pub enum Outcome {
    /// The rows a select read.
    Rows(Vec<TaskRow>),
    /// The id an insert generated.
    Created(CreateTaskRow),
    /// An update or delete ran; how many rows it touched is not reported.
    Done,
}

impl Statement {
    /// The statement's SQL text; its placeholders take the variant's fields.
    pub fn sql(&self) -> (r: &'static str)
        ensures
            self is SelectAll ==> r@ == "SELECT * FROM tasks ORDER BY id"@,
            self is Insert ==> r@ == "INSERT INTO tasks (name, priority) VALUES ($1, $2) RETURNING id"@,
            self is Update ==> r@ == "UPDATE tasks SET name = $2, priority = $3 WHERE id = $1"@,
            self is Delete ==> r@ == "DELETE FROM tasks WHERE id = $1"@,
    {
        match self {
            Statement::SelectAll => "SELECT * FROM tasks ORDER BY id",
            Statement::Insert { .. } => "INSERT INTO tasks (name, priority) VALUES ($1, $2) RETURNING id",
            Statement::Update { .. } => "UPDATE tasks SET name = $2, priority = $3 WHERE id = $1",
            Statement::Delete { .. } => "DELETE FROM tasks WHERE id = $1",
        }
    }
}

/// The statement behind `GET /tasks`.
pub fn list_statement() -> (r: Statement)
    ensures
        r is SelectAll,
{
    Statement::SelectAll
}

/// The statement behind `POST /tasks`: the body's name and priority.
pub fn create_statement(req: CreateTaskRequest) -> (r: Statement)
    ensures
        r == (Statement::Insert { name: req.name, priority: req.priority }),
{
    Statement::Insert { name: req.name, priority: req.priority }
}

/// The statement behind `PUT /tasks/:id`. Both columns take what the body
/// holds, so a field left out of the body writes null.
pub fn update_statement(id: i32, req: UpdateTaskRequest) -> (r: Statement)
    ensures
        r == (Statement::Update { id, name: req.name, priority: req.priority }),
{
    Statement::Update { id, name: req.name, priority: req.priority }
}

/// The statement behind `DELETE /tasks/:id`.
pub fn delete_statement(id: i32) -> (r: Statement)
    ensures
        r == (Statement::Delete { id }),
{
    Statement::Delete { id }
}

} // verus!
