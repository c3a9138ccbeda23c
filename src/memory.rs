use vstd::prelude::*;

use crate::session::{ids_ascending, CreateStage, DeleteStage, UpdateStage};
use crate::statement::{Action, Reply, Statement, StoreError};
use crate::todo::{done_flag, record_of, Todo, TodoRequest};

verus! {

/// Ids strictly increase from one record to the next: each id names one row.
pub open spec fn ids_strictly_ascending(rows: Seq<Todo>) -> bool {
    forall|i: int, j: int| 0 <= i < j < rows.len() ==> #[trigger] rows[i].id < #[trigger] rows[j].id
}

/// Whether some record has this id.
pub open spec fn has_id(rows: Seq<Todo>, id: int) -> bool {
    exists|i: int| 0 <= i < rows.len() && rows[i].id == id
}

/// Where the record with this id stands.
pub open spec fn index_of(rows: Seq<Todo>, id: int) -> int {
    choose|i: int| 0 <= i < rows.len() && rows[i].id == id
}

/// The record with this id, if any.
pub open spec fn lookup(rows: Seq<Todo>, id: int) -> Option<Todo> {
    if has_id(rows, id) {
        Some(rows[index_of(rows, id)])
    } else {
        None
    }
}

/// The records after replacing description and flag of the one with `id`.
pub open spec fn updated_rows(rows: Seq<Todo>, id: i32, description: String, done: i8) -> Seq<Todo> {
    rows.map_values(|t: Todo| if t.id == id { Todo { id, description, done } } else { t })
}

/// The records after removing the one with `id`.
pub open spec fn deleted_rows(rows: Seq<Todo>, id: int) -> Seq<Todo> {
    if has_id(rows, id) {
        rows.remove(index_of(rows, id))
    } else {
        rows
    }
}

/// With unique ids, the record found for an id is the one that has it.
pub proof fn lemma_lookup_at(rows: Seq<Todo>, k: int)
    requires
        ids_strictly_ascending(rows),
        0 <= k < rows.len(),
    ensures
        has_id(rows, rows[k].id as int),
        index_of(rows, rows[k].id as int) == k,
        lookup(rows, rows[k].id as int) == Some(rows[k]),
{
    let id = rows[k].id as int;
    assert(0 <= k < rows.len() && rows[k].id == id);
    let i = index_of(rows, id);
    if i < k {
        assert(rows[i].id < rows[k].id);
    } else if k < i {
        assert(rows[k].id < rows[i].id);
    }
}

/// A store kept in memory, with the behaviour the access layer expects of a
/// relational store: ids handed out in increasing order and never reused,
/// an insert id kept per connection, and one transaction at a time whose
/// writes a rollback undoes.
pub struct MemoryStore {
    rows: Vec<Todo>,
    next_id: i32,
    last_insert_id: u64,
    saved: Option<Vec<Todo>>,
}

impl MemoryStore {
    /// The records, in id order.
    pub closed spec fn rows(&self) -> Seq<Todo> {
        self.rows@
    }

    /// The id the next insert will be given.
    pub closed spec fn next_id(&self) -> int {
        self.next_id as int
    }

    /// The id given to the last insert.
    pub closed spec fn last_insert_id(&self) -> int {
        self.last_insert_id as int
    }

    /// The records as they stood when the open transaction began, if one is open.
    pub closed spec fn saved(&self) -> Option<Seq<Todo>> {
        match self.saved {
            Some(v) => Some(v@),
            None => None,
        }
    }

    /// Ids are positive, strictly increasing and below the next id to be
    /// handed out, in the records and in what a rollback would restore.
    pub closed spec fn wf(&self) -> bool {
        &&& 1 <= self.next_id
        &&& ids_strictly_ascending(self.rows@)
        &&& forall|i: int| 0 <= i < self.rows@.len() ==> 1 <= #[trigger] self.rows@[i].id < self.next_id
        &&& match self.saved {
            Some(v) => ids_strictly_ascending(v@) && forall|i: int| 0 <= i < v@.len() ==> 1 <= #[trigger] v@[i].id < self.next_id,
            None => true,
        }
    }

    /// An empty store, with no transaction open.
    pub fn new() -> (r: MemoryStore)
        ensures
            r.wf(),
            r.rows() == Seq::<Todo>::empty(),
            r.next_id() == 1,
            r.last_insert_id() == 0,
            r.saved() is None,
    {
        MemoryStore { rows: Vec::new(), next_id: 1, last_insert_id: 0, saved: None }
    }

    /// Runs one statement and answers it.
    pub fn execute(&mut self, statement: Statement) -> (reply: Reply)
        requires
            old(self).wf(),
        ensures
            final(self).wf(),
            match statement {
                Statement::Begin => match old(self).saved() {
                    None => reply is Began && final(self).rows() == old(self).rows()
                        && final(self).saved() == Some(old(self).rows())
                        && final(self).next_id() == old(self).next_id()
                        && final(self).last_insert_id() == old(self).last_insert_id(),
                    Some(_) => reply is Failed && *final(self) == *old(self),
                },
                Statement::SelectAll => reply is Rows && reply->rows@ == old(self).rows()
                    && *final(self) == *old(self),
                Statement::SelectById { id } => reply is Row && reply->row == lookup(old(self).rows(), id as int)
                    && *final(self) == *old(self),
                Statement::Insert { description, done } => if old(self).next_id() < i32::MAX {
                    reply == (Reply::Affected { count: 1 })
                        && final(self).rows() == old(self).rows().push(
                            Todo { id: old(self).next_id() as i32, description, done },
                        )
                        && final(self).next_id() == old(self).next_id() + 1
                        && final(self).last_insert_id() == old(self).next_id()
                        && final(self).saved() == old(self).saved()
                } else {
                    reply is Failed && *final(self) == *old(self)
                },
                Statement::LastInsertId => reply is InsertId && reply->id == old(self).last_insert_id()
                    && *final(self) == *old(self),
                Statement::Update { id, description, done } =>
                    reply == (Reply::Affected { count: if has_id(old(self).rows(), id as int) { 1 } else { 0 } })
                    && final(self).rows() == updated_rows(old(self).rows(), id, description, done)
                    && final(self).next_id() == old(self).next_id()
                    && final(self).last_insert_id() == old(self).last_insert_id()
                    && final(self).saved() == old(self).saved(),
                Statement::Delete { id } =>
                    reply == (Reply::Affected { count: if has_id(old(self).rows(), id as int) { 1 } else { 0 } })
                    && final(self).rows() == deleted_rows(old(self).rows(), id as int)
                    && final(self).next_id() == old(self).next_id()
                    && final(self).last_insert_id() == old(self).last_insert_id()
                    && final(self).saved() == old(self).saved(),
                Statement::Commit => match old(self).saved() {
                    Some(_) => reply is Committed && final(self).rows() == old(self).rows()
                        && final(self).saved() is None
                        && final(self).next_id() == old(self).next_id()
                        && final(self).last_insert_id() == old(self).last_insert_id(),
                    None => reply is Failed && *final(self) == *old(self),
                },
                Statement::Rollback => match old(self).saved() {
                    Some(before) => reply is RolledBack && final(self).rows() == before
                        && final(self).saved() is None
                        && final(self).next_id() == old(self).next_id()
                        && final(self).last_insert_id() == old(self).last_insert_id(),
                    None => reply is Failed && *final(self) == *old(self),
                },
            },
    {
        match statement {
            Statement::Begin => {
                if self.saved.is_some() {
                    return Reply::Failed;
                }
                self.saved = Some(copy_rows(&self.rows));
                Reply::Began
            },
            Statement::SelectAll => Reply::Rows { rows: copy_rows(&self.rows) },
            Statement::SelectById { id } => {
                match position(&self.rows, id) {
                    Some(k) => {
                        proof {
                            lemma_lookup_at(self.rows@, k as int);
                        }
                        Reply::Row { row: Some(self.rows[k].duplicate()) }
                    },
                    None => Reply::Row { row: None },
                }
            },
            Statement::Insert { description, done } => {
                if self.next_id == i32::MAX {
                    return Reply::Failed;
                }
                let id = self.next_id;
                self.rows.push(Todo { id, description, done });
                self.last_insert_id = id as u64;
                self.next_id = id + 1;
                Reply::Affected { count: 1 }
            },
            Statement::LastInsertId => Reply::InsertId { id: self.last_insert_id },
            Statement::Update { id, description, done } => {
                let ghost before = self.rows@;
                match position(&self.rows, id) {
                    Some(k) => {
                        proof {
                            lemma_lookup_at(before, k as int);
                        }
                        self.rows.set(k, Todo { id, description, done });
                        assert forall|i: int| 0 <= i < before.len() && i != k implies #[trigger] before[i].id != id by {
                            if i < k {
                                assert(before[i].id < before[k as int].id);
                            } else {
                                assert(before[k as int].id < before[i].id);
                            }
                        }
                        assert(self.rows@ =~= updated_rows(before, id, description, done));
                        Reply::Affected { count: 1 }
                    },
                    None => {
                        assert(self.rows@ =~= updated_rows(before, id, description, done));
                        Reply::Affected { count: 0 }
                    },
                }
            },
            Statement::Delete { id } => {
                let ghost before = self.rows@;
                match position(&self.rows, id) {
                    Some(k) => {
                        proof {
                            lemma_lookup_at(before, k as int);
                        }
                        self.rows.remove(k);
                        assert(self.rows@ =~= before.remove(k as int));
                        Reply::Affected { count: 1 }
                    },
                    None => Reply::Affected { count: 0 },
                }
            },
            Statement::Commit => {
                if self.saved.is_none() {
                    return Reply::Failed;
                }
                self.saved = None;
                Reply::Committed
            },
            Statement::Rollback => {
                match self.saved.take() {
                    Some(before) => {
                        self.rows = before;
                        Reply::RolledBack
                    },
                    None => Reply::Failed,
                }
            },
        }
    }
}

/// A copy of the records, equal to them one by one.
fn copy_rows(rows: &Vec<Todo>) -> (r: Vec<Todo>)
    ensures
        r@ == rows@,
{
    let mut out: Vec<Todo> = Vec::new();
    let mut i: usize = 0;
    while i < rows.len()
        invariant
            i <= rows@.len(),
            out@ == rows@.subrange(0, i as int),
        decreases rows.len() - i,
    {
        out.push(rows[i].duplicate());
        i = i + 1;
        assert(out@ =~= rows@.subrange(0, i as int));
    }
    assert(out@ =~= rows@);
    out
}

/// Where the record with `id` stands, if any.
fn position(rows: &Vec<Todo>, id: i32) -> (r: Option<usize>)
    ensures
        match r {
            Some(k) => k < rows@.len() && rows@[k as int].id == id,
            None => !has_id(rows@, id as int),
        },
{
    let mut i: usize = 0;
    while i < rows.len()
        invariant
            i <= rows@.len(),
            forall|j: int| 0 <= j < i ==> #[trigger] rows@[j].id != id,
        decreases rows.len() - i,
    {
        if rows[i].id == id {
            return Some(i);
        }
        i = i + 1;
    }
    None
}

impl MemoryStore {
    /// Creates a record by running the create session against this store.
    /// The record gets the next id, unless the ids are used up: then
    /// nothing changes and the create fails.
    pub fn create(&mut self, todo: TodoRequest) -> (r: Result<Todo, StoreError>)
        requires
            old(self).wf(),
            old(self).saved() is None,
        ensures
            final(self).wf(),
            final(self).saved() is None,
            old(self).next_id() < i32::MAX ==> {
                &&& r == Ok::<Todo, StoreError>(record_of(old(self).next_id(), todo))
                &&& final(self).rows() == old(self).rows().push(record_of(old(self).next_id(), todo))
                &&& final(self).next_id() == old(self).next_id() + 1
            },
            old(self).next_id() >= i32::MAX ==> {
                &&& r == Err::<Todo, StoreError>(StoreError)
                &&& final(self).rows() == old(self).rows()
                &&& final(self).next_id() == old(self).next_id()
            },
    {
        let ghost before = self.rows();
        let ghost n = self.next_id();
        let ghost req = todo;
        let ghost rec = record_of(n, todo);
        let ghost fits = n < i32::MAX;
        let (mut session, first) = Todo::create(todo);
        let mut action: Action<Todo> = Action::Run(first);
        loop
            invariant
                self.wf(),
                before == old(self).rows(),
                n == old(self).next_id(),
                req == todo,
                session.request == req,
                rec == record_of(n, req),
                fits == (n < i32::MAX),
                match session.stage {
                    CreateStage::AwaitBegin => action == Action::<Todo>::Run(Statement::Begin)
                        && self.rows() == before && self.saved() is None && self.next_id() == n,
                    CreateStage::AwaitInsert => action == Action::<Todo>::Run(Statement::Insert {
                        description: req.description,
                        done: done_flag(req.done),
                    }) && self.rows() == before && self.saved() == Some(before) && self.next_id() == n,
                    CreateStage::AwaitId => fits && action == Action::<Todo>::Run(Statement::LastInsertId)
                        && self.rows() == before.push(rec) && self.saved() == Some(before)
                        && self.next_id() == n + 1 && self.last_insert_id() == n,
                    CreateStage::AwaitRow { id } => fits && id == n
                        && action == Action::<Todo>::Run(Statement::SelectById { id })
                        && self.rows() == before.push(rec) && self.saved() == Some(before)
                        && self.next_id() == n + 1,
                    CreateStage::AwaitCommit { record } => fits && record == rec
                        && action == Action::<Todo>::Run(Statement::Commit)
                        && self.rows() == before.push(rec) && self.saved() == Some(before)
                        && self.next_id() == n + 1,
                    CreateStage::AwaitRollback => !fits && action == Action::<Todo>::Run(Statement::Rollback)
                        && self.rows() == before && self.saved() == Some(before) && self.next_id() == n,
                    CreateStage::Over => self.saved() is None && if fits {
                        action == Action::Finish(Ok::<Todo, StoreError>(rec))
                            && self.rows() == before.push(rec) && self.next_id() == n + 1
                    } else {
                        action == Action::<Todo>::Finish(Err(StoreError))
                            && self.rows() == before && self.next_id() == n
                    },
                },
            decreases session.stage.remaining(),
        {
            match action {
                Action::Run(statement) => {
                    let reply = self.execute(statement);
                    proof {
                        if session.stage is AwaitRow {
                            lemma_lookup_at(self.rows(), before.len() as int);
                        }
                    }
                    action = session.next(reply);
                },
                Action::Finish(r) => {
                    return r;
                },
            }
        }
    }
}

impl MemoryStore {
    /// Reads every record, in id order, through the find-all session.
    pub fn find_all(&mut self) -> (r: Result<Vec<Todo>, StoreError>)
        requires
            old(self).wf(),
        ensures
            *final(self) == *old(self),
            r is Ok && r->Ok_0@ == old(self).rows(),
            r is Ok && ids_ascending(r->Ok_0@),
    {
        let (mut session, statement) = Todo::find_all();
        let reply = self.execute(statement);
        proof {
            assert(ids_ascending(self.rows()));
        }
        match session.next(reply) {
            Action::Finish(r) => r,
            Action::Run(_) => Err(StoreError),
        }
    }

    /// Reads the record with `id`, if any, through the find-by-id session.
    pub fn find_by_id(&mut self, id: i32) -> (r: Result<Option<Todo>, StoreError>)
        requires
            old(self).wf(),
        ensures
            *final(self) == *old(self),
            r == Ok::<Option<Todo>, StoreError>(lookup(old(self).rows(), id as int)),
    {
        let (mut session, statement) = Todo::find_by_id(id);
        let reply = self.execute(statement);
        proof {
            if has_id(self.rows(), id as int) {
                lemma_lookup_at(self.rows(), index_of(self.rows(), id as int));
            }
        }
        match session.next(reply) {
            Action::Finish(r) => r,
            Action::Run(_) => Err(StoreError),
        }
    }

    /// Replaces description and state of the record with `id` by running
    /// the update session against this store. Without such a record nothing
    /// changes and the result is absent.
    pub fn update(&mut self, id: i32, todo: TodoRequest) -> (r: Result<Option<Todo>, StoreError>)
        requires
            old(self).wf(),
            old(self).saved() is None,
        ensures
            final(self).wf(),
            final(self).saved() is None,
            final(self).next_id() == old(self).next_id(),
            has_id(old(self).rows(), id as int) ==> {
                &&& r == Ok::<Option<Todo>, StoreError>(Some(record_of(id as int, todo)))
                &&& final(self).rows() == updated_rows(old(self).rows(), id, todo.description, done_flag(todo.done))
            },
            !has_id(old(self).rows(), id as int) ==> {
                &&& r == Ok::<Option<Todo>, StoreError>(None)
                &&& final(self).rows() == old(self).rows()
            },
    {
        let ghost before = self.rows();
        let ghost n = self.next_id();
        let ghost req = todo;
        let ghost rec = record_of(id as int, todo);
        let ghost found = has_id(before, id as int);
        let ghost after = updated_rows(before, id, todo.description, done_flag(todo.done));
        let (mut session, first) = Todo::update(id, todo);
        let mut action: Action<Option<Todo>> = Action::Run(first);
        loop
            invariant
                self.wf(),
                before == old(self).rows(),
                n == old(self).next_id(),
                req == todo,
                rec == record_of(id as int, req),
                found == has_id(before, id as int),
                after == updated_rows(before, id, req.description, done_flag(req.done)),
                session.id == id,
                session.request == req,
                self.next_id() == n,
                match session.stage {
                    UpdateStage::AwaitBegin => action == Action::<Option<Todo>>::Run(Statement::Begin)
                        && self.rows() == before && self.saved() is None,
                    UpdateStage::AwaitUpdate => action == Action::<Option<Todo>>::Run(Statement::Update {
                        id,
                        description: req.description,
                        done: done_flag(req.done),
                    }) && self.rows() == before && self.saved() == Some(before),
                    UpdateStage::AwaitRow => found
                        && action == Action::<Option<Todo>>::Run(Statement::SelectById { id })
                        && self.rows() == after && self.saved() == Some(before),
                    UpdateStage::AwaitCommit { record } => found && record == rec
                        && action == Action::<Option<Todo>>::Run(Statement::Commit)
                        && self.rows() == after && self.saved() == Some(before),
                    UpdateStage::AwaitRollbackAbsent => !found
                        && action == Action::<Option<Todo>>::Run(Statement::Rollback)
                        && self.saved() == Some(before),
                    UpdateStage::AwaitRollback => false,
                    UpdateStage::Over => self.saved() is None && if found {
                        action == Action::Finish(Ok::<Option<Todo>, StoreError>(Some(rec)))
                            && self.rows() == after
                    } else {
                        action == Action::Finish(Ok::<Option<Todo>, StoreError>(None))
                            && self.rows() == before
                    },
                },
            decreases session.stage.remaining(),
        {
            match action {
                Action::Run(statement) => {
                    let reply = self.execute(statement);
                    proof {
                        if session.stage is AwaitRow {
                            lemma_lookup_at(self.rows(), index_of(before, id as int));
                        }
                    }
                    action = session.next(reply);
                },
                Action::Finish(r) => {
                    return r;
                },
            }
        }
    }

    /// Removes the record with `id` by running the delete session against
    /// this store, and reports how many records went: one or none.
    pub fn delete(&mut self, id: i32) -> (r: Result<u64, StoreError>)
        requires
            old(self).wf(),
            old(self).saved() is None,
        ensures
            final(self).wf(),
            final(self).saved() is None,
            final(self).next_id() == old(self).next_id(),
            final(self).rows() == deleted_rows(old(self).rows(), id as int),
            r == Ok::<u64, StoreError>(if has_id(old(self).rows(), id as int) { 1 } else { 0 }),
    {
        let ghost before = self.rows();
        let ghost n = self.next_id();
        let ghost count: u64 = if has_id(before, id as int) { 1 } else { 0 };
        let (mut session, first) = Todo::delete(id);
        let mut action: Action<u64> = Action::Run(first);
        loop
            invariant
                self.wf(),
                before == old(self).rows(),
                n == old(self).next_id(),
                count == (if has_id(before, id as int) { 1u64 } else { 0u64 }),
                session.id == id,
                self.next_id() == n,
                match session.stage {
                    DeleteStage::AwaitBegin => action == Action::<u64>::Run(Statement::Begin)
                        && self.rows() == before && self.saved() is None,
                    DeleteStage::AwaitDelete => action == Action::<u64>::Run(Statement::Delete { id })
                        && self.rows() == before && self.saved() == Some(before),
                    DeleteStage::AwaitCommit { count: c } => c == count
                        && action == Action::<u64>::Run(Statement::Commit)
                        && self.rows() == deleted_rows(before, id as int) && self.saved() == Some(before),
                    DeleteStage::AwaitRollback => false,
                    DeleteStage::Over => self.saved() is None
                        && action == Action::Finish(Ok::<u64, StoreError>(count))
                        && self.rows() == deleted_rows(before, id as int),
                },
            decreases session.stage.remaining(),
        {
            match action {
                Action::Run(statement) => {
                    let reply = self.execute(statement);
                    action = session.next(reply);
                },
                Action::Finish(r) => {
                    return r;
                },
            }
        }
    }
}

/// A record just created is found again under the id it was given, equal
/// to what the create returned.
pub proof fn lemma_create_then_find(s: MemoryStore, todo: TodoRequest)
    requires
        s.wf(),
        s.next_id() < i32::MAX,
    ensures
        lookup(s.rows().push(record_of(s.next_id(), todo)), s.next_id())
            == Some(record_of(s.next_id(), todo)),
{
    let rows = s.rows().push(record_of(s.next_id(), todo));
    assert(ids_strictly_ascending(rows)) by {
        assert forall|i: int, j: int| 0 <= i < j < rows.len() implies #[trigger] rows[i].id < #[trigger] rows[j].id by {
            if j == rows.len() - 1 {
                assert(s.rows()[i].id < s.next_id());
            }
        }
    }
    lemma_lookup_at(rows, s.rows().len() as int);
}

/// Reading every record yields them in id order.
pub proof fn lemma_find_all_ordered(s: MemoryStore)
    requires
        s.wf(),
    ensures
        ids_ascending(s.rows()),
{
}

/// An update of an id that no record has leaves the records as they are,
/// their number included.
pub proof fn lemma_update_missing(s: MemoryStore, id: i32, todo: TodoRequest)
    requires
        s.wf(),
        !has_id(s.rows(), id as int),
    ensures
        updated_rows(s.rows(), id, todo.description, done_flag(todo.done)) == s.rows(),
        updated_rows(s.rows(), id, todo.description, done_flag(todo.done)).len() == s.rows().len(),
{
    let u = updated_rows(s.rows(), id, todo.description, done_flag(todo.done));
    assert(u =~= s.rows());
}

/// An update of an existing id keeps the number of records, gives the
/// record with that id the new description and state, and leaves the
/// record found under every other id as it was.
pub proof fn lemma_update_changes_one_row(s: MemoryStore, id: i32, todo: TodoRequest, other: int)
    requires
        s.wf(),
        has_id(s.rows(), id as int),
        other != id,
    ensures
        updated_rows(s.rows(), id, todo.description, done_flag(todo.done)).len() == s.rows().len(),
        lookup(updated_rows(s.rows(), id, todo.description, done_flag(todo.done)), id as int)
            == Some(record_of(id as int, todo)),
        lookup(updated_rows(s.rows(), id, todo.description, done_flag(todo.done)), other)
            == lookup(s.rows(), other),
{
    let rows = s.rows();
    let u = updated_rows(rows, id, todo.description, done_flag(todo.done));
    assert forall|i: int| 0 <= i < u.len() implies #[trigger] u[i].id == rows[i].id by {}
    assert(ids_strictly_ascending(u)) by {
        assert forall|i: int, j: int| 0 <= i < j < u.len() implies #[trigger] u[i].id < #[trigger] u[j].id by {
            assert(u[i].id == rows[i].id && u[j].id == rows[j].id);
        }
    }
    let k = index_of(rows, id as int);
    lemma_lookup_at(u, k);
    if has_id(rows, other) {
        let m = index_of(rows, other);
        lemma_lookup_at(u, m);
    } else {
        assert(!has_id(u, other)) by {
            if has_id(u, other) {
                let m = index_of(u, other);
                assert(rows[m].id == other);
            }
        }
    }
}

/// After a delete of an existing id no record is found under it, and one
/// record fewer remains.
pub proof fn lemma_delete_then_find(s: MemoryStore, id: i32)
    requires
        s.wf(),
        has_id(s.rows(), id as int),
    ensures
        deleted_rows(s.rows(), id as int).len() == s.rows().len() - 1,
        lookup(deleted_rows(s.rows(), id as int), id as int) is None,
{
    let rows = s.rows();
    let k = index_of(rows, id as int);
    let d = deleted_rows(rows, id as int);
    assert(d == rows.remove(k));
    if has_id(d, id as int) {
        let m = index_of(d, id as int);
        if m < k {
            assert(d[m] == rows[m]);
            assert(rows[m].id < rows[k].id);
        } else {
            assert(d[m] == rows[m + 1]);
            assert(rows[k].id < rows[m + 1].id);
        }
    }
}

/// A delete of an id that no record has leaves the records as they are.
pub proof fn lemma_delete_missing(s: MemoryStore, id: i32)
    requires
        !has_id(s.rows(), id as int),
    ensures
        deleted_rows(s.rows(), id as int) == s.rows(),
{
}

/// Two creates, one after the other, are given two different ids, and each
/// id finds the record of its own request.
pub proof fn lemma_successive_creates(s: MemoryStore, first: TodoRequest, second: TodoRequest)
    requires
        s.wf(),
        s.next_id() + 1 < i32::MAX,
    ensures
        ({
            let rows = s.rows().push(record_of(s.next_id(), first)).push(record_of(s.next_id() + 1, second));
            &&& record_of(s.next_id(), first).id != record_of(s.next_id() + 1, second).id
            &&& lookup(rows, s.next_id()) == Some(record_of(s.next_id(), first))
            &&& lookup(rows, s.next_id() + 1) == Some(record_of(s.next_id() + 1, second))
        }),
{
    let a = record_of(s.next_id(), first);
    let b = record_of(s.next_id() + 1, second);
    let rows = s.rows().push(a).push(b);
    assert(ids_strictly_ascending(rows)) by {
        assert forall|i: int, j: int| 0 <= i < j < rows.len() implies #[trigger] rows[i].id < #[trigger] rows[j].id by {
            if i < s.rows().len() {
                assert(s.rows()[i].id < s.next_id());
            }
        }
    }
    lemma_lookup_at(rows, s.rows().len() as int);
    lemma_lookup_at(rows, s.rows().len() as int + 1);
}

} // verus!
