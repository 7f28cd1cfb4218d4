//! The `tasks` table and what each of the service's statements does to it.
//!
//! `TableModel` states the effect of the insert, update and delete
//! statements; `TaskTable` is an in-memory table that carries them out.

use vstd::prelude::*;
use vstd::string::StringExecFns;
use crate::task::{TaskModel, TaskRow, CreateTaskRow, DbError, rows_view, opt_text};
use crate::statement::{Statement, Outcome};

verus! {

/// The largest id the table's sequence can hand out.
pub const MAX_ID: i32 = i32::MAX;

/// The table as a mathematical value: its rows in ascending id order, and
/// the value the id sequence hands out next.
pub ghost struct TableModel {
    pub rows: Seq<TaskModel>,
    pub next_id: int,
}

impl TableModel {
    /// Ids strictly ascend along the rows, so no two rows share an id.
    pub open spec fn ids_ascending(self) -> bool {
        forall|i: int, j: int|
            0 <= i < j < self.rows.len() ==> #[trigger] self.rows[i].id < #[trigger] self.rows[j].id
    }

    /// The table's invariant: ids ascend, each is positive and below the
    /// sequence's next value, and the sequence stays within range.
    pub open spec fn wf(self) -> bool {
        &&& self.ids_ascending()
        &&& 1 <= self.next_id <= MAX_ID + 1
        &&& forall|i: int| 0 <= i < self.rows.len() ==> 1 <= #[trigger] self.rows[i].id < self.next_id
    }

    pub open spec fn contains_id(self, id: int) -> bool {
        exists|i: int| 0 <= i < self.rows.len() && #[trigger] self.rows[i].id == id
    }

    /// The sequence still has an id to hand out.
    pub open spec fn can_insert(self) -> bool {
        self.next_id <= MAX_ID
    }

    /// The table after an insert: a row with the sequence's next id.
    pub open spec fn inserted(self, name: Seq<char>, priority: Option<i32>) -> TableModel {
        TableModel {
            rows: self.rows.push(TaskModel { id: self.next_id, name, priority }),
            next_id: self.next_id + 1,
        }
    }

    /// The table after `UPDATE tasks SET name, priority WHERE id`: both
    /// columns of the matching row are replaced.
    pub open spec fn updated(self, id: int, name: Seq<char>, priority: Option<i32>) -> TableModel {
        TableModel {
            rows: self.rows.map_values(
                |r: TaskModel| if r.id == id { TaskModel { id, name, priority } } else { r },
            ),
            next_id: self.next_id,
        }
    }

    /// An update that sets the name to null on an existing row breaks the
    /// column's not-null constraint; with no matching row nothing is checked.
    pub open spec fn update_rejected(self, id: int, name: Option<Seq<char>>) -> bool {
        name is None && self.contains_id(id)
    }

    /// The table after an update statement that was not rejected.
    pub open spec fn after_update(self, id: int, name: Option<Seq<char>>, priority: Option<i32>) -> TableModel {
        match name {
            Some(n) => self.updated(id, n, priority),
            None => self,
        }
    }

    /// The table after `DELETE FROM tasks WHERE id`.
    pub open spec fn deleted(self, id: int) -> TableModel {
        TableModel { rows: self.rows.filter(|r: TaskModel| r.id != id), next_id: self.next_id }
    }
}

/// Deleting keeps the table well formed: what stays is a subsequence of
/// the rows, in their order.
pub proof fn lemma_deleted_wf(t: TableModel, id: int)
    requires
        t.wf(),
    ensures
        t.deleted(id).wf(),
{
    let p = |r: TaskModel| r.id != id;
    lemma_filter_keeps_order(t.rows, p);
}

/// Each element of a filtered sequence comes from the unfiltered sequence, and two of
/// them keep their relative order.
proof fn lemma_filter_keeps_order(s: Seq<TaskModel>, p: spec_fn(TaskModel) -> bool)
    ensures
        forall|i: int| 0 <= i < s.filter(p).len() ==> s.contains(#[trigger] s.filter(p)[i]),
        forall|i: int, j: int| 0 <= i < j < s.filter(p).len() ==> exists|a: int, b: int|
            0 <= a < b < s.len() && s[a] == #[trigger] s.filter(p)[i] && s[b] == #[trigger] s.filter(p)[j],
    decreases s.len(),
{
    broadcast use vstd::seq_lib::group_filter_ensures;
    reveal(Seq::filter);
    if s.len() > 0 {
        let init = s.drop_last();
        lemma_filter_keeps_order(init, p);
        assert(init.push(s.last()) =~= s);
        init.lemma_filter_push(s.last(), p);
        let f = s.filter(p);
        assert forall|i: int, j: int| 0 <= i < j < f.len() implies exists|a: int, b: int|
            0 <= a < b < s.len() && s[a] == #[trigger] f[i] && s[b] == #[trigger] f[j] by {
            let g = init.filter(p);
            if j < g.len() {
                let (a, b) = choose|a: int, b: int| 0 <= a < b < init.len() && init[a] == g[i] && init[b] == g[j];
                assert(s[a] == f[i] && s[b] == f[j]);
            } else {
                assert(g.contains(g[i]));
                let a = choose|a: int| 0 <= a < init.len() && init[a] == g[i];
                assert(s[a] == f[i] && s[s.len() - 1] == f[j]);
            }
        }
    }
}

/// An in-memory `tasks` table.
pub struct TaskTable {
    rows: Vec<TaskRow>,
    next_id: i64,
}

impl View for TaskTable {
    type V = TableModel;

    closed spec fn view(&self) -> TableModel {
        TableModel { rows: rows_view(self.rows@), next_id: self.next_id as int }
    }
}

impl TaskTable {
    /// An empty table whose sequence starts at 1.
    pub fn new() -> (t: TaskTable)
        ensures
            t@.wf(),
            t@.rows.len() == 0,
            t@.next_id == 1,
    {
        let t = TaskTable { rows: Vec::new(), next_id: 1 };
        assert(t@.rows =~= Seq::<TaskModel>::empty());
        t
    }

    /// `SELECT * FROM tasks ORDER BY id`: every row, in ascending id order.
    pub fn list(&self) -> (r: Vec<TaskRow>)
        requires
            self@.wf(),
        ensures
            rows_view(r@) == self@.rows,
    {
        let mut out: Vec<TaskRow> = Vec::new();
        let mut i: usize = 0;
        while i < self.rows.len()
            invariant
                i <= self.rows@.len(),
                rows_view(out@) =~= rows_view(self.rows@).take(i as int),
            decreases self.rows@.len() - i,
        {
            out.push(self.rows[i].duplicate());
            assert(rows_view(self.rows@).take(i as int + 1) =~= rows_view(self.rows@).take(i as int).push(self.rows@[i as int]@));
            i = i + 1;
        }
        assert(rows_view(self.rows@).take(i as int) =~= rows_view(self.rows@));
        out
    }

    /// `INSERT INTO tasks (name, priority) VALUES (..) RETURNING id`. The row
    /// takes the sequence's next id; once the sequence is spent the insert
    /// fails and the table is left as it was.
    pub fn create(&mut self, name: String, priority: Option<i32>) -> (r: Result<CreateTaskRow, DbError>)
        requires
            old(self)@.wf(),
        ensures
            final(self)@.wf(),
            match r {
                Ok(row) => old(self)@.can_insert()
                    && row.id as int == old(self)@.next_id
                    && final(self)@ == old(self)@.inserted(name@, priority),
                Err(_) => !old(self)@.can_insert() && final(self)@ == old(self)@,
            },
    {
        if self.next_id > MAX_ID as i64 {
            return Err(DbError { message: String::from_str("nextval: reached maximum value of sequence \"tasks_id_seq\"") });
        }
        let id = self.next_id as i32;
        let ghost before = self@;
        self.rows.push(TaskRow { id, name, priority });
        self.next_id = self.next_id + 1;
        assert(self@.rows =~= before.rows.push(TaskModel { id: id as int, name: name@, priority }));
        Ok(CreateTaskRow { id })
    }
    /// Whether some row has this id.
    pub fn contains(&self, id: i32) -> (r: bool)
        ensures
            r == self@.contains_id(id as int),
    {
        let mut i: usize = 0;
        while i < self.rows.len()
            invariant
                i <= self.rows@.len(),
                forall|k: int| 0 <= k < i ==> (#[trigger] self.rows@[k]).id != id,
            decreases self.rows@.len() - i,
        {
            if self.rows[i].id == id {
                assert(rows_view(self.rows@)[i as int].id == id as int);
                return true;
            }
            i = i + 1;
        }
        assert forall|k: int| 0 <= k < self@.rows.len() implies #[trigger] self@.rows[k].id != id as int by {
            assert(self@.rows[k] == self.rows@[k]@);
        }
        false
    }

    /// `UPDATE tasks SET name = .., priority = .. WHERE id = ..`. Both columns
    /// are overwritten; an absent value writes null. Setting the name of an
    /// existing row to null is refused by the column's not-null constraint.
    /// No row matching is no error.
    pub fn update(&mut self, id: i32, name: Option<String>, priority: Option<i32>) -> (r: Result<(), DbError>)
        requires
            old(self)@.wf(),
        ensures
            final(self)@.wf(),
            r is Err <==> old(self)@.update_rejected(id as int, opt_text(name)),
            r is Err ==> final(self)@ == old(self)@,
            r is Ok ==> final(self)@ == old(self)@.after_update(id as int, opt_text(name), priority),
    {
        let n = match name {
            Some(n) => n,
            None => {
                if self.contains(id) {
                    return Err(DbError {
                        message: String::from_str("null value in column \"name\" of relation \"tasks\" violates not-null constraint"),
                    });
                }
                return Ok(());
            },
        };
        let ghost before = self@;
        let ghost f = |r: TaskModel| if r.id == id as int { TaskModel { id: id as int, name: n@, priority } } else { r };
        let mut out: Vec<TaskRow> = Vec::new();
        let mut i: usize = 0;
        while i < self.rows.len()
            invariant
                i <= self.rows@.len(),
                before == self@,
                before.wf(),
                f == (|r: TaskModel| if r.id == id as int { TaskModel { id: id as int, name: n@, priority } } else { r }),
                rows_view(out@) =~= before.rows.take(i as int).map_values(f),
            decreases self.rows@.len() - i,
        {
            let row = if self.rows[i].id == id {
                TaskRow { id, name: n.clone(), priority }
            } else {
                self.rows[i].duplicate()
            };
            out.push(row);
            assert(before.rows.take(i as int + 1) =~= before.rows.take(i as int).push(before.rows[i as int]));
            assert(before.rows.take(i as int + 1).map_values(f) =~= before.rows.take(i as int).map_values(f).push(f(before.rows[i as int])));
            i = i + 1;
        }
        assert(before.rows.take(i as int) =~= before.rows);
        self.rows = out;
        assert(self@ =~= before.updated(id as int, n@, priority));
        Ok(())
    }

    /// `DELETE FROM tasks WHERE id = ..`: the matching row, if any, is gone.
    /// No row matching is no error.
    pub fn delete(&mut self, id: i32) -> (r: Result<(), DbError>)
        requires
            old(self)@.wf(),
        ensures
            final(self)@.wf(),
            r is Ok,
            final(self)@ == old(self)@.deleted(id as int),
    {
        let ghost before = self@;
        let ghost p = |r: TaskModel| r.id != id as int;
        let mut out: Vec<TaskRow> = Vec::new();
        let mut i: usize = 0;
        while i < self.rows.len()
            invariant
                i <= self.rows@.len(),
                before == self@,
                before.wf(),
                p == (|r: TaskModel| r.id != id as int),
                rows_view(out@) =~= before.rows.take(i as int).filter(p),
            decreases self.rows@.len() - i,
        {
            assert(before.rows.take(i as int + 1) =~= before.rows.take(i as int).push(before.rows[i as int]));
            proof { before.rows.take(i as int).lemma_filter_push(before.rows[i as int], p); }
            if self.rows[i].id != id {
                out.push(self.rows[i].duplicate());
            }
            i = i + 1;
        }
        assert(before.rows.take(i as int) =~= before.rows);
        self.rows = out;
        assert(self@ =~= before.deleted(id as int));
        proof { lemma_deleted_wf(before, id as int); }
        Ok(())
    }
    /// Runs a statement: a select reads every row in id order, the others
    /// change the table as `create`, `update` and `delete` do.
    pub fn execute(&mut self, stmt: Statement) -> (r: Result<Outcome, DbError>)
        requires
            old(self)@.wf(),
        ensures
            final(self)@.wf(),
            match stmt {
                Statement::SelectAll => r matches Ok(Outcome::Rows(v))
                    && rows_view(v@) == old(self)@.rows && final(self)@ == old(self)@,
                Statement::Insert { name, priority } => match r {
                    Ok(o) => o matches Outcome::Created(row)
                        && old(self)@.can_insert()
                        && row.id as int == old(self)@.next_id
                        && final(self)@ == old(self)@.inserted(name@, priority),
                    Err(_) => !old(self)@.can_insert() && final(self)@ == old(self)@,
                },
                Statement::Update { id, name, priority } => {
                    &&& r is Err <==> old(self)@.update_rejected(id as int, opt_text(name))
                    &&& r is Err ==> final(self)@ == old(self)@
                    &&& r is Ok ==> r->Ok_0 is Done
                        && final(self)@ == old(self)@.after_update(id as int, opt_text(name), priority)
                },
                Statement::Delete { id } => r matches Ok(Outcome::Done)
                    && final(self)@ == old(self)@.deleted(id as int),
            },
    {
        match stmt {
            Statement::SelectAll => Ok(Outcome::Rows(self.list())),
            Statement::Insert { name, priority } => match self.create(name, priority) {
                Ok(row) => Ok(Outcome::Created(row)),
                Err(e) => Err(e),
            },
            Statement::Update { id, name, priority } => match self.update(id, name, priority) {
                Ok(()) => Ok(Outcome::Done),
                Err(e) => Err(e),
            },
            Statement::Delete { id } => match self.delete(id) {
                Ok(()) => Ok(Outcome::Done),
                Err(e) => Err(e),
            },
        }
    }
}

} // verus!
