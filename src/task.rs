//! Rows of the `tasks` table and the request bodies that carry them.

use vstd::prelude::*;

verus! {

/// A row as a mathematical value: the generated id, the name and the
/// nullable priority.
pub ghost struct TaskModel {
    pub id: int,
    pub name: Seq<char>,
    pub priority: Option<i32>,
}

/// One row of the `tasks` table, in the shape the list endpoint returns.
pub struct TaskRow {
    pub id: i32,
    pub name: String,
    pub priority: Option<i32>,
}

impl View for TaskRow {
    type V = TaskModel;

    open spec fn view(&self) -> TaskModel {
        TaskModel { id: self.id as int, name: self.name@, priority: self.priority }
    }
}

/// The models of a sequence of rows, in order.
pub open spec fn rows_view(rows: Seq<TaskRow>) -> Seq<TaskModel> {
    rows.map_values(|r: TaskRow| r@)
}

/// The text of a nullable string column.
pub open spec fn opt_text(s: Option<String>) -> Option<Seq<char>> {
    match s {
        Some(t) => Some(t@),
        None => None,
    }
}

impl TaskRow {
    /// A copy of this row.
    pub fn duplicate(&self) -> (r: TaskRow)
        ensures
            r@ == self@,
    {
        TaskRow { id: self.id, name: self.name.clone(), priority: self.priority }
    }
}

/// Body of a create request: a required name and an optional priority.
pub struct CreateTaskRequest {
    pub name: String,
    pub priority: Option<i32>,
}

/// Body of an update request. Both columns are overwritten with what the
/// body holds; a field that is absent overwrites its column with null.
pub struct UpdateTaskRequest {
    pub name: Option<String>,
    pub priority: Option<i32>,
}

/// What an insert hands back: the id the table generated.
pub struct CreateTaskRow {
    pub id: i32,
}

/// A failed statement, with the text the database driver reported.
pub struct DbError {
    pub message: String,
}

} // verus!
