//! What holds of the table across statements, stated over `TableModel`,
//! the model that `TaskTable`'s operations are specified by.

use vstd::prelude::*;
use crate::task::TaskModel;
use crate::table::{TableModel, lemma_deleted_wf};

verus! {

/// An insert's id is new: no row held it before, exactly the inserted row
/// holds it after, and every later insert gets a larger id. The table a
/// later list reads contains it.
pub proof fn law_created_id_is_unique_and_listed(t: TableModel, name: Seq<char>, priority: Option<i32>)
    requires
        t.wf(),
        t.can_insert(),
    ensures
        !t.contains_id(t.next_id),
        t.inserted(name, priority).wf(),
        t.inserted(name, priority).contains_id(t.next_id),
        forall|i: int| 0 <= i < t.inserted(name, priority).rows.len()
            && #[trigger] t.inserted(name, priority).rows[i].id == t.next_id
            ==> i == t.rows.len() && t.inserted(name, priority).rows[i] == (TaskModel { id: t.next_id, name, priority }),
        t.inserted(name, priority).next_id > t.next_id,
{
    let u = t.inserted(name, priority);
    assert(u.rows[t.rows.len() as int].id == t.next_id);
}

/// Every statement keeps the rows in strictly ascending id order, whatever
/// order they were inserted, updated and deleted in.
pub proof fn law_statements_keep_ids_ascending(
    t: TableModel,
    id: int,
    name: Seq<char>,
    new_name: Option<Seq<char>>,
    priority: Option<i32>,
)
    requires
        t.wf(),
    ensures
        forall|i: int, j: int| 0 <= i < j < t.rows.len() ==> #[trigger] t.rows[i].id < #[trigger] t.rows[j].id,
        t.can_insert() ==> t.inserted(name, priority).wf(),
        t.after_update(id, new_name, priority).wf(),
        t.deleted(id).wf(),
{
    lemma_deleted_wf(t, id);
    let u = t.after_update(id, new_name, priority);
    assert(u.rows.len() == t.rows.len());
}

/// An update of an id no row holds is no error and leaves the table as it
/// was, whatever the body held.
pub proof fn law_update_of_missing_id_succeeds(t: TableModel, id: int, name: Option<Seq<char>>, priority: Option<i32>)
    requires
        t.wf(),
        !t.contains_id(id),
    ensures
        !t.update_rejected(id, name),
        t.after_update(id, name, priority) == t,
{
    if let Some(n) = name {
        assert(t.updated(id, n, priority).rows =~= t.rows);
    }
}

/// An update of an existing row whose body leaves out the priority writes
/// null into it, whatever it held before; the name is the one given.
pub proof fn law_update_without_priority_writes_null(t: TableModel, id: int, name: Seq<char>)
    requires
        t.wf(),
        t.contains_id(id),
    ensures
        !t.update_rejected(id, Some(name)),
        t.after_update(id, Some(name), None).contains_id(id),
        forall|i: int| 0 <= i < t.rows.len() && #[trigger] t.after_update(id, Some(name), None).rows[i].id == id
            ==> t.after_update(id, Some(name), None).rows[i] == (TaskModel { id, name, priority: None }),
{
    let i = choose|i: int| 0 <= i < t.rows.len() && #[trigger] t.rows[i].id == id;
    assert(t.after_update(id, Some(name), None).rows[i].id == id);
}

/// A delete of an id no row holds leaves the table as it was.
pub proof fn law_delete_of_missing_id_keeps_table(t: TableModel, id: int)
    requires
        t.wf(),
        !t.contains_id(id),
    ensures
        t.deleted(id) == t,
{
    let p = |r: TaskModel| r.id != id;
    assert(forall|i: int| 0 <= i < t.rows.len() ==> p(#[trigger] t.rows[i]));
    lemma_filter_keeps_all(t.rows, p);
}

/// Filtering by a predicate that every element meets changes nothing.
proof fn lemma_filter_keeps_all(s: Seq<TaskModel>, p: spec_fn(TaskModel) -> bool)
    requires
        forall|i: int| 0 <= i < s.len() ==> p(#[trigger] s[i]),
    ensures
        s.filter(p) == s,
    decreases s.len(),
{
    reveal(Seq::filter);
    if s.len() > 0 {
        let init = s.drop_last();
        assert(forall|i: int| 0 <= i < init.len() ==> init[i] == s[i]);
        lemma_filter_keeps_all(init, p);
        assert(init.push(s.last()) =~= s);
        init.lemma_filter_push(s.last(), p);
        assert(p(s[s.len() - 1]));
    } else {
        assert(s.filter(p) =~= s);
    }
}

/// After a delete no row holds the id, so a later list does not show it.
pub proof fn law_deleted_id_is_gone(t: TableModel, id: int)
    requires
        t.wf(),
    ensures
        !t.deleted(id).contains_id(id),
        t.deleted(id).wf(),
{
    broadcast use vstd::seq_lib::group_filter_ensures;
    lemma_deleted_wf(t, id);
    let p = |r: TaskModel| r.id != id;
    assert forall|i: int| 0 <= i < t.deleted(id).rows.len() implies #[trigger] t.deleted(id).rows[i].id != id by {
        assert(p(t.rows.filter(p)[i]));
    }
}

} // verus!
