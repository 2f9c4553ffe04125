//! A model of the `todos` table and of what each statement of the
//! repository does to it, and the laws that the repository operations obey
//! when the store answers as the model does.
use vstd::prelude::*;
use crate::todo::{TodoView, TodoError, done_or_default};
use crate::repo::{StoreFailure, list_outcome, create_outcome, read_outcome, affected_outcome};

verus! {

/// The contents of the `todos` table: its rows in ascending order of id, and
/// the id that the next insert assigns. Ids are never reused.
pub struct Table {
    pub rows: Seq<TodoView>,
    pub next_id: int,
}

/// Ids strictly ascend along `rows`.
pub open spec fn ascending(rows: Seq<TodoView>) -> bool {
    forall|i: int, j: int| 0 <= i < j < rows.len() ==> rows[i].id < rows[j].id
}

impl Table {
    /// The table's invariant: rows ascend by id, and every id lies between 1
    /// and the next id to assign.
    pub open spec fn wf(self) -> bool {
        &&& self.next_id >= 1
        &&& ascending(self.rows)
        &&& forall|i: int| 0 <= i < self.rows.len() ==> 1 <= #[trigger] self.rows[i].id < self.next_id
    }

    /// The table as it is created: no rows, the first id is 1.
    pub open spec fn empty() -> Table {
        Table { rows: Seq::empty(), next_id: 1 }
    }

    pub open spec fn contains(self, id: int) -> bool {
        exists|i: int| 0 <= i < self.rows.len() && self.rows[i].id == id
    }

    pub open spec fn index_of(self, id: int) -> int {
        choose|i: int| 0 <= i < self.rows.len() && self.rows[i].id == id
    }

    /// The row with the given id, if any.
    pub open spec fn find(self, id: int) -> Option<TodoView> {
        if self.contains(id) {
            Some(self.rows[self.index_of(id)])
        } else {
            None
        }
    }

    /// The table after an insert: the new row takes the next id.
    pub open spec fn insert(self, description: Seq<char>, done: bool) -> Table {
        Table {
            rows: self.rows.push(TodoView { id: self.next_id, description, done }),
            next_id: self.next_id + 1,
        }
    }

    /// The table after an update of the row with the given id.
    pub open spec fn update(self, id: int, description: Seq<char>, done: bool) -> Table {
        if self.contains(id) {
            Table {
                rows: self.rows.update(self.index_of(id), TodoView { id, description, done }),
                next_id: self.next_id,
            }
        } else {
            self
        }
    }

    /// The table after a delete of the row with the given id.
    pub open spec fn delete(self, id: int) -> Table {
        if self.contains(id) {
            Table { rows: self.rows.remove(self.index_of(id)), next_id: self.next_id }
        } else {
            self
        }
    }

    /// What the store answers to the listing query.
    pub open spec fn list_reply(self) -> Result<Seq<TodoView>, StoreFailure> {
        Ok(self.rows)
    }

    /// What the store answers to an insert: the id of the new row.
    pub open spec fn insert_reply(self) -> Result<int, StoreFailure> {
        Ok(self.next_id)
    }

    /// What the store answers to the query for one id.
    pub open spec fn find_reply(self, id: int) -> Result<Option<TodoView>, StoreFailure> {
        Ok(self.find(id))
    }

    /// How many rows an update or a delete of the given id affects.
    pub open spec fn affected_reply(self, id: int) -> Result<int, StoreFailure> {
        Ok(if self.contains(id) { 1int } else { 0int })
    }
}

proof fn lemma_index_unique(t: Table, id: int, i: int)
    requires
        t.wf(),
        0 <= i < t.rows.len(),
        t.rows[i].id == id,
    ensures
        t.contains(id),
        t.index_of(id) == i,
{
    assert(t.contains(id));
    let k = t.index_of(id);
    if k < i {
        assert(t.rows[k].id < t.rows[i].id);
    } else if k > i {
        assert(t.rows[i].id < t.rows[k].id);
    }
}

/// Every statement keeps the table's invariant.
pub proof fn lemma_statements_keep_wf(t: Table, id: int, description: Seq<char>, done: bool)
    requires
        t.wf(),
    ensures
        Table::empty().wf(),
        t.insert(description, done).wf(),
        t.update(id, description, done).wf(),
        t.delete(id).wf(),
{
    let ins = t.insert(description, done);
    assert forall|i: int, j: int| 0 <= i < j < ins.rows.len() implies ins.rows[i].id
        < ins.rows[j].id by {
        if j == t.rows.len() {
            assert(t.rows[i].id < t.next_id);
        } else {
            assert(t.rows[i].id < t.rows[j].id);
        }
    }
    assert forall|i: int| 0 <= i < ins.rows.len() implies 1 <= #[trigger] ins.rows[i].id
        < ins.next_id by {
        if i < t.rows.len() {
            assert(t.rows[i].id < t.next_id);
        }
    }
    if t.contains(id) {
        let k = t.index_of(id);
        let up = t.update(id, description, done);
        assert forall|i: int, j: int| 0 <= i < j < up.rows.len() implies up.rows[i].id
            < up.rows[j].id by {
            assert(t.rows[i].id < t.rows[j].id);
        }
        assert forall|i: int| 0 <= i < up.rows.len() implies 1 <= #[trigger] up.rows[i].id
            < up.next_id by {
            assert(1 <= t.rows[i].id < t.next_id);
        }
        let del = t.delete(id);
        assert forall|i: int, j: int| 0 <= i < j < del.rows.len() implies del.rows[i].id
            < del.rows[j].id by {
            let oi = if i < k { i } else { i + 1 };
            let oj = if j < k { j } else { j + 1 };
            assert(del.rows[i] == t.rows[oi]);
            assert(del.rows[j] == t.rows[oj]);
            assert(t.rows[oi].id < t.rows[oj].id);
        }
        assert forall|i: int| 0 <= i < del.rows.len() implies 1 <= #[trigger] del.rows[i].id
            < del.next_id by {
            let oi = if i < k { i } else { i + 1 };
            assert(del.rows[i] == t.rows[oi]);
            assert(1 <= t.rows[oi].id < t.next_id);
        }
    }
}


/// Creating an item and then reading it by the id that creation returned
/// gives back the description it was created with, and the done flag it was
/// given, or false where none was given.
pub proof fn law_create_then_read(t: Table, description: Seq<char>, done: Option<bool>)
    requires
        t.wf(),
    ensures
        create_outcome(t.insert_reply()) is Ok,
        read_outcome(
            t.insert(description, done_or_default(done)).find_reply(
                create_outcome(t.insert_reply())->Ok_0,
            ),
        ) == Ok::<TodoView, TodoError>(
            TodoView {
                id: create_outcome(t.insert_reply())->Ok_0,
                description,
                done: done_or_default(done),
            },
        ),
        done is None ==> !done_or_default(done),
{
    lemma_statements_keep_wf(t, 0, description, done_or_default(done));
    let ins = t.insert(description, done_or_default(done));
    lemma_index_unique(ins, t.next_id, t.rows.len() as int);
}

/// An update followed by a read of the same id gives the new description and
/// done flag, and doing the same update twice leaves the table as doing it once.
pub proof fn law_update_then_read(t: Table, id: int, description: Seq<char>, done: bool)
    requires
        t.wf(),
        affected_outcome(t.affected_reply(id)) is Ok,
    ensures
        read_outcome(t.update(id, description, done).find_reply(id)) == Ok::<
            TodoView,
            TodoError,
        >(TodoView { id, description, done }),
        t.update(id, description, done).update(id, description, done) == t.update(
            id,
            description,
            done,
        ),
{
    let k = t.index_of(id);
    let up = t.update(id, description, done);
    lemma_statements_keep_wf(t, id, description, done);
    lemma_index_unique(up, id, k);
    assert(up.rows.update(k, TodoView { id, description, done }) =~= up.rows);
}

/// After a delete of an id, reading that id fails with `NotFound`.
pub proof fn law_delete_then_read(t: Table, id: int)
    requires
        t.wf(),
    ensures
        read_outcome(t.delete(id).find_reply(id)) == Err::<TodoView, TodoError>(
            TodoError::NotFound,
        ),
{
    let del = t.delete(id);
    if del.contains(id) {
        let j = del.index_of(id);
        let k = t.index_of(id);
        let oj = if j < k { j } else { j + 1 };
        assert(del.rows[j] == t.rows[oj]);
        lemma_index_unique(t, id, oj);
    }
}

/// Reading, updating or deleting an id that no row has fails with
/// `NotFound` and leaves the table as it was.
pub proof fn law_missing_id(t: Table, id: int, description: Seq<char>, done: bool)
    requires
        t.wf(),
        !t.contains(id),
    ensures
        read_outcome(t.find_reply(id)) == Err::<TodoView, TodoError>(TodoError::NotFound),
        affected_outcome(t.affected_reply(id)) == Err::<(), TodoError>(TodoError::NotFound),
        t.update(id, description, done) == t,
        t.delete(id) == t,
{
}

/// One change made to the table by a repository operation.
pub enum Change {
    Create(Seq<char>, bool),
    Delete(int),
}

impl Table {
    pub open spec fn apply(self, change: Change) -> Table {
        match change {
            Change::Create(description, done) => self.insert(description, done),
            Change::Delete(id) => self.delete(id),
        }
    }

    /// The table after the changes, in order.
    pub open spec fn run(self, changes: Seq<Change>) -> Table
        decreases changes.len(),
    {
        if changes.len() == 0 {
            self
        } else {
            self.apply(changes[0]).run(changes.drop_first())
        }
    }

    /// How many of the changes, made in order, are deletes that succeed.
    pub open spec fn deletes_done(self, changes: Seq<Change>) -> nat
        decreases changes.len(),
    {
        if changes.len() == 0 {
            0
        } else {
            let rest = self.apply(changes[0]).deletes_done(changes.drop_first());
            match changes[0] {
                Change::Delete(id) => if affected_outcome(self.affected_reply(id)) is Ok {
                    rest + 1
                } else {
                    rest
                },
                Change::Create(_, _) => rest,
            }
        }
    }
}

/// How many of the changes are creates.
pub open spec fn creates(changes: Seq<Change>) -> nat
    decreases changes.len(),
{
    if changes.len() == 0 {
        0
    } else {
        let rest = creates(changes.drop_first());
        match changes[0] {
            Change::Create(_, _) => rest + 1,
            Change::Delete(_) => rest,
        }
    }
}

/// After any interleaving of creates and deletes, listing returns every row
/// in ascending order of id, and there are as many rows as there were
/// creates, less the deletes that succeeded.
pub proof fn law_list_count(t: Table, changes: Seq<Change>)
    requires
        t.wf(),
    ensures
        t.run(changes).wf(),
        list_outcome(t.run(changes).list_reply()) == Ok::<Seq<TodoView>, TodoError>(
            t.run(changes).rows,
        ),
        ascending(t.run(changes).rows),
        t.run(changes).rows.len() + t.deletes_done(changes) == t.rows.len() + creates(changes),
    decreases changes.len(),
{
    if changes.len() > 0 {
        let t1 = t.apply(changes[0]);
        match changes[0] {
            Change::Create(description, done) => {
                lemma_statements_keep_wf(t, 0, description, done);
            },
            Change::Delete(id) => {
                lemma_statements_keep_wf(t, id, Seq::empty(), false);
            },
        }
        law_list_count(t1, changes.drop_first());
    }
}

/// Starting from the empty table, N creates and M successful deletes, in any
/// order, leave exactly N - M rows, listed in ascending order of id.
pub proof fn law_list_count_from_empty(changes: Seq<Change>)
    ensures
        ascending(Table::empty().run(changes).rows),
        Table::empty().run(changes).rows.len() == creates(changes) - Table::empty().deletes_done(
            changes,
        ),
{
    lemma_statements_keep_wf(Table::empty(), 0, Seq::empty(), false);
    law_list_count(Table::empty(), changes);
}

} // verus!
