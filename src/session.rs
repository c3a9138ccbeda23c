use vstd::prelude::*;

use crate::statement::{Action, Reply, Statement, StoreError};
use crate::todo::{done_flag, to_flag, Todo, TodoRequest};

verus! {

/// Ids never decrease from one record to the next.
pub open spec fn ids_ascending(rows: Seq<Todo>) -> bool {
    forall|i: int, j: int| 0 <= i < j < rows.len() ==> #[trigger] rows[i].id <= #[trigger] rows[j].id
}

/// Whether the records come in id order.
pub fn in_id_order(rows: &Vec<Todo>) -> (r: bool)
    ensures
        r == ids_ascending(rows@),
{
    let mut k: usize = 1;
    while k < rows.len()
        invariant
            1 <= k,
            forall|i: int, j: int| 0 <= i < j < k && j < rows@.len() ==> #[trigger] rows@[i].id <= #[trigger] rows@[j].id,
        decreases rows.len() - k,
    {
        if rows[k - 1].id > rows[k].id {
            assert(!ids_ascending(rows@)) by {
                assert(rows@[k - 1].id > rows@[k as int].id);
            }
            return false;
        }
        assert forall|i: int, j: int| 0 <= i < j < k + 1 && j < rows@.len() implies #[trigger] rows@[i].id <= #[trigger] rows@[j].id by {
            if j == k && i < k - 1 {
                assert(rows@[i].id <= rows@[k - 1].id);
            }
        }
        k = k + 1;
    }
    true
}

/// Reading every record: one query, no transaction.
pub struct FindAllSession {
    pub over: bool,
}

impl FindAllSession {
    /// Takes the answer to the query. The records come back only when they
    /// are in id order; anything else is a store failure.
    pub fn next(&mut self, reply: Reply) -> (r: Action<Vec<Todo>>)
        requires
            !old(self).over,
        ensures
            final(self).over,
            match reply {
                Reply::Rows { rows } => if ids_ascending(rows@) {
                    r == Action::Finish(Ok::<Vec<Todo>, StoreError>(rows))
                } else {
                    r == Action::<Vec<Todo>>::Finish(Err(StoreError))
                },
                _ => r == Action::<Vec<Todo>>::Finish(Err(StoreError)),
            },
    {
        self.over = true;
        match reply {
            Reply::Rows { rows } => {
                if in_id_order(&rows) {
                    Action::Finish(Ok(rows))
                } else {
                    Action::Finish(Err(StoreError))
                }
            },
            _ => Action::Finish(Err(StoreError)),
        }
    }
}

/// Reading the record with one id: one query, no transaction.
pub struct FindByIdSession {
    pub id: i32,
    pub over: bool,
}

impl FindByIdSession {
    /// Takes the answer to the query. No row is an absent record, not an
    /// error; a row with another id is a store failure.
    pub fn next(&mut self, reply: Reply) -> (r: Action<Option<Todo>>)
        requires
            !old(self).over,
        ensures
            final(self).over,
            final(self).id == old(self).id,
            match reply {
                Reply::Row { row: None } => r == Action::Finish(Ok::<Option<Todo>, StoreError>(None)),
                Reply::Row { row: Some(t) } => if t.id == old(self).id {
                    r == Action::Finish(Ok::<Option<Todo>, StoreError>(Some(t)))
                } else {
                    r == Action::<Option<Todo>>::Finish(Err(StoreError))
                },
                _ => r == Action::<Option<Todo>>::Finish(Err(StoreError)),
            },
    {
        self.over = true;
        match reply {
            Reply::Row { row: None } => Action::Finish(Ok(None)),
            Reply::Row { row: Some(t) } => {
                if t.id == self.id {
                    Action::Finish(Ok(Some(t)))
                } else {
                    Action::Finish(Err(StoreError))
                }
            },
            _ => Action::Finish(Err(StoreError)),
        }
    }
}

/// Where a create stands: which reply it waits for.
pub enum CreateStage {
    AwaitBegin,
    AwaitInsert,
    AwaitId,
    AwaitRow { id: i32 },
    AwaitCommit { record: Todo },
    AwaitRollback,
    Over,
}

impl CreateStage {
    /// At most how many more replies the session takes.
    pub open spec fn remaining(&self) -> nat {
        match self {
            CreateStage::AwaitBegin => 6,
            CreateStage::AwaitInsert => 5,
            CreateStage::AwaitId => 4,
            CreateStage::AwaitRow { .. } => 3,
            CreateStage::AwaitCommit { .. } => 2,
            CreateStage::AwaitRollback => 1,
            CreateStage::Over => 0,
        }
    }
}

/// Creating a record: begin, insert, ask the same transaction for the id it
/// generated, read that row back, commit. Any failure inside the
/// transaction rolls it back before the error is reported.
pub struct CreateSession {
    pub request: TodoRequest,
    pub stage: CreateStage,
}

impl CreateSession {
    /// Takes the reply to the statement last handed out and says what comes next.
    pub fn next(&mut self, reply: Reply) -> (r: Action<Todo>)
        requires
            !(old(self).stage is Over),
        ensures
            final(self).request == old(self).request,
            final(self).stage.remaining() < old(self).stage.remaining(),
            r is Finish <==> final(self).stage is Over,
            match old(self).stage {
                CreateStage::AwaitBegin => if reply is Began {
                    r == Action::<Todo>::Run(Statement::Insert {
                        description: old(self).request.description,
                        done: done_flag(old(self).request.done),
                    }) && final(self).stage is AwaitInsert
                } else {
                    r == Action::<Todo>::Finish(Err(StoreError)) && final(self).stage is Over
                },
                CreateStage::AwaitInsert => if reply == (Reply::Affected { count: 1 }) {
                    r == Action::<Todo>::Run(Statement::LastInsertId) && final(self).stage is AwaitId
                } else {
                    r == Action::<Todo>::Run(Statement::Rollback) && final(self).stage is AwaitRollback
                },
                CreateStage::AwaitId => match reply {
                    Reply::InsertId { id } => if id <= i32::MAX {
                        r == Action::<Todo>::Run(Statement::SelectById { id: id as i32 })
                            && final(self).stage == (CreateStage::AwaitRow { id: id as i32 })
                    } else {
                        r == Action::<Todo>::Run(Statement::Rollback) && final(self).stage is AwaitRollback
                    },
                    _ => r == Action::<Todo>::Run(Statement::Rollback) && final(self).stage is AwaitRollback,
                },
                CreateStage::AwaitRow { id } => match reply {
                    Reply::Row { row: Some(t) } => if t.id == id {
                        r == Action::<Todo>::Run(Statement::Commit)
                            && final(self).stage == (CreateStage::AwaitCommit { record: t })
                    } else {
                        r == Action::<Todo>::Run(Statement::Rollback) && final(self).stage is AwaitRollback
                    },
                    _ => r == Action::<Todo>::Run(Statement::Rollback) && final(self).stage is AwaitRollback,
                },
                CreateStage::AwaitCommit { record } => if reply is Committed {
                    r == Action::Finish(Ok::<Todo, StoreError>(record)) && final(self).stage is Over
                } else {
                    r == Action::<Todo>::Run(Statement::Rollback) && final(self).stage is AwaitRollback
                },
                _ => r == Action::<Todo>::Finish(Err(StoreError)) && final(self).stage is Over,
            },
    {
        let (action, stage) = match (&self.stage, reply) {
            (CreateStage::AwaitBegin, Reply::Began) => (
                Action::Run(Statement::Insert {
                    description: self.request.description.clone(),
                    done: to_flag(self.request.done),
                }),
                CreateStage::AwaitInsert,
            ),
            (CreateStage::AwaitBegin, _) => (Action::Finish(Err(StoreError)), CreateStage::Over),
            (CreateStage::AwaitInsert, Reply::Affected { count: 1 }) => (
                Action::Run(Statement::LastInsertId),
                CreateStage::AwaitId,
            ),
            (CreateStage::AwaitId, Reply::InsertId { id }) if id <= i32::MAX as u64 => (
                Action::Run(Statement::SelectById { id: id as i32 }),
                CreateStage::AwaitRow { id: id as i32 },
            ),
            (CreateStage::AwaitRow { id }, Reply::Row { row: Some(t) }) if t.id == *id => (
                Action::Run(Statement::Commit),
                CreateStage::AwaitCommit { record: t },
            ),
            (CreateStage::AwaitCommit { record }, Reply::Committed) => (
                Action::Finish(Ok(record.duplicate())),
                CreateStage::Over,
            ),
            (CreateStage::AwaitRollback, _) | (CreateStage::Over, _) => (
                Action::Finish(Err(StoreError)),
                CreateStage::Over,
            ),
            _ => (Action::Run(Statement::Rollback), CreateStage::AwaitRollback),
        };
        self.stage = stage;
        action
    }
}

/// Where an update stands: which reply it waits for.
pub enum UpdateStage {
    AwaitBegin,
    AwaitUpdate,
    AwaitRow,
    AwaitCommit { record: Todo },
    /// Nothing matched: the transaction is being closed and the record is absent.
    AwaitRollbackAbsent,
    AwaitRollback,
    Over,
}

impl UpdateStage {
    /// At most how many more replies the session takes.
    pub open spec fn remaining(&self) -> nat {
        match self {
            UpdateStage::AwaitBegin => 5,
            UpdateStage::AwaitUpdate => 4,
            UpdateStage::AwaitRow => 3,
            UpdateStage::AwaitCommit { .. } => 2,
            UpdateStage::AwaitRollbackAbsent => 1,
            UpdateStage::AwaitRollback => 1,
            UpdateStage::Over => 0,
        }
    }
}

/// Updating a record: begin, update by id, and read the count of rows it
/// touched. None means there is no such record: roll back and report it
/// absent. Otherwise read the row back, commit and return it.
pub struct UpdateSession {
    pub id: i32,
    pub request: TodoRequest,
    pub stage: UpdateStage,
}

impl UpdateSession {
    /// Takes the reply to the statement last handed out and says what comes next.
    pub fn next(&mut self, reply: Reply) -> (r: Action<Option<Todo>>)
        requires
            !(old(self).stage is Over),
        ensures
            final(self).id == old(self).id,
            final(self).request == old(self).request,
            final(self).stage.remaining() < old(self).stage.remaining(),
            r is Finish <==> final(self).stage is Over,
            match old(self).stage {
                UpdateStage::AwaitBegin => if reply is Began {
                    r == Action::<Option<Todo>>::Run(Statement::Update {
                        id: old(self).id,
                        description: old(self).request.description,
                        done: done_flag(old(self).request.done),
                    }) && final(self).stage is AwaitUpdate
                } else {
                    r == Action::<Option<Todo>>::Finish(Err(StoreError)) && final(self).stage is Over
                },
                UpdateStage::AwaitUpdate => match reply {
                    Reply::Affected { count } => if count == 0 {
                        r == Action::<Option<Todo>>::Run(Statement::Rollback)
                            && final(self).stage is AwaitRollbackAbsent
                    } else {
                        r == Action::<Option<Todo>>::Run(Statement::SelectById { id: old(self).id })
                            && final(self).stage is AwaitRow
                    },
                    _ => r == Action::<Option<Todo>>::Run(Statement::Rollback) && final(self).stage is AwaitRollback,
                },
                UpdateStage::AwaitRow => match reply {
                    Reply::Row { row: Some(t) } => if t.id == old(self).id {
                        r == Action::<Option<Todo>>::Run(Statement::Commit)
                            && final(self).stage == (UpdateStage::AwaitCommit { record: t })
                    } else {
                        r == Action::<Option<Todo>>::Run(Statement::Rollback) && final(self).stage is AwaitRollback
                    },
                    _ => r == Action::<Option<Todo>>::Run(Statement::Rollback) && final(self).stage is AwaitRollback,
                },
                UpdateStage::AwaitCommit { record } => if reply is Committed {
                    r == Action::Finish(Ok::<Option<Todo>, StoreError>(Some(record))) && final(self).stage is Over
                } else {
                    r == Action::<Option<Todo>>::Run(Statement::Rollback) && final(self).stage is AwaitRollback
                },
                UpdateStage::AwaitRollbackAbsent =>
                    r == Action::Finish(Ok::<Option<Todo>, StoreError>(None)) && final(self).stage is Over,
                _ => r == Action::<Option<Todo>>::Finish(Err(StoreError)) && final(self).stage is Over,
            },
    {
        let (action, stage) = match (&self.stage, reply) {
            (UpdateStage::AwaitBegin, Reply::Began) => (
                Action::Run(Statement::Update {
                    id: self.id,
                    description: self.request.description.clone(),
                    done: to_flag(self.request.done),
                }),
                UpdateStage::AwaitUpdate,
            ),
            (UpdateStage::AwaitBegin, _) => (Action::Finish(Err(StoreError)), UpdateStage::Over),
            (UpdateStage::AwaitUpdate, Reply::Affected { count }) => {
                if count == 0 {
                    (Action::Run(Statement::Rollback), UpdateStage::AwaitRollbackAbsent)
                } else {
                    (Action::Run(Statement::SelectById { id: self.id }), UpdateStage::AwaitRow)
                }
            },
            (UpdateStage::AwaitRow, Reply::Row { row: Some(t) }) if t.id == self.id => (
                Action::Run(Statement::Commit),
                UpdateStage::AwaitCommit { record: t },
            ),
            (UpdateStage::AwaitCommit { record }, Reply::Committed) => (
                Action::Finish(Ok(Some(record.duplicate()))),
                UpdateStage::Over,
            ),
            (UpdateStage::AwaitRollbackAbsent, _) => (Action::Finish(Ok(None)), UpdateStage::Over),
            (UpdateStage::AwaitRollback, _) | (UpdateStage::Over, _) => (
                Action::Finish(Err(StoreError)),
                UpdateStage::Over,
            ),
            _ => (Action::Run(Statement::Rollback), UpdateStage::AwaitRollback),
        };
        self.stage = stage;
        action
    }
}

/// Where a delete stands: which reply it waits for.
pub enum DeleteStage {
    AwaitBegin,
    AwaitDelete,
    AwaitCommit { count: u64 },
    AwaitRollback,
    Over,
}

impl DeleteStage {
    /// At most how many more replies the session takes.
    pub open spec fn remaining(&self) -> nat {
        match self {
            DeleteStage::AwaitBegin => 4,
            DeleteStage::AwaitDelete => 3,
            DeleteStage::AwaitCommit { .. } => 2,
            DeleteStage::AwaitRollback => 1,
            DeleteStage::Over => 0,
        }
    }
}

/// Deleting a record: begin, delete by id, commit, and report how many rows
/// went. Nothing to delete is a count of zero, not an error.
pub struct DeleteSession {
    pub id: i32,
    pub stage: DeleteStage,
}

impl DeleteSession {
    /// Takes the reply to the statement last handed out and says what comes next.
    pub fn next(&mut self, reply: Reply) -> (r: Action<u64>)
        requires
            !(old(self).stage is Over),
        ensures
            final(self).id == old(self).id,
            final(self).stage.remaining() < old(self).stage.remaining(),
            r is Finish <==> final(self).stage is Over,
            match old(self).stage {
                DeleteStage::AwaitBegin => if reply is Began {
                    r == Action::<u64>::Run(Statement::Delete { id: old(self).id })
                        && final(self).stage is AwaitDelete
                } else {
                    r == Action::<u64>::Finish(Err(StoreError)) && final(self).stage is Over
                },
                DeleteStage::AwaitDelete => match reply {
                    Reply::Affected { count } => r == Action::<u64>::Run(Statement::Commit)
                        && final(self).stage == (DeleteStage::AwaitCommit { count }),
                    _ => r == Action::<u64>::Run(Statement::Rollback) && final(self).stage is AwaitRollback,
                },
                DeleteStage::AwaitCommit { count } => if reply is Committed {
                    r == Action::Finish(Ok::<u64, StoreError>(count)) && final(self).stage is Over
                } else {
                    r == Action::<u64>::Run(Statement::Rollback) && final(self).stage is AwaitRollback
                },
                _ => r == Action::<u64>::Finish(Err(StoreError)) && final(self).stage is Over,
            },
    {
        let (action, stage) = match (&self.stage, reply) {
            (DeleteStage::AwaitBegin, Reply::Began) => (
                Action::Run(Statement::Delete { id: self.id }),
                DeleteStage::AwaitDelete,
            ),
            (DeleteStage::AwaitBegin, _) => (Action::Finish(Err(StoreError)), DeleteStage::Over),
            (DeleteStage::AwaitDelete, Reply::Affected { count }) => (
                Action::Run(Statement::Commit),
                DeleteStage::AwaitCommit { count },
            ),
            (DeleteStage::AwaitCommit { count }, Reply::Committed) => (
                Action::Finish(Ok(*count)),
                DeleteStage::Over,
            ),
            (DeleteStage::AwaitRollback, _) | (DeleteStage::Over, _) => (
                Action::Finish(Err(StoreError)),
                DeleteStage::Over,
            ),
            _ => (Action::Run(Statement::Rollback), DeleteStage::AwaitRollback),
        };
        self.stage = stage;
        action
    }
}

impl Todo {
    /// Starts reading every record; hands out the query to run.
    pub fn find_all() -> (r: (FindAllSession, Statement))
        ensures
            !r.0.over,
            r.1 is SelectAll,
    {
        (FindAllSession { over: false }, Statement::SelectAll)
    }

    /// Starts reading the record with `id`; hands out the query to run.
    pub fn find_by_id(id: i32) -> (r: (FindByIdSession, Statement))
        ensures
            r.0.id == id,
            !r.0.over,
            r.1 == (Statement::SelectById { id }),
    {
        (FindByIdSession { id, over: false }, Statement::SelectById { id })
    }

    /// Starts creating a record from `todo`; hands out the first statement.
    pub fn create(todo: TodoRequest) -> (r: (CreateSession, Statement))
        ensures
            r.0.request == todo,
            r.0.stage is AwaitBegin,
            r.1 is Begin,
    {
        (CreateSession { request: todo, stage: CreateStage::AwaitBegin }, Statement::Begin)
    }

    /// Starts replacing the description and state of the record with `id`;
    /// hands out the first statement.
    pub fn update(id: i32, todo: TodoRequest) -> (r: (UpdateSession, Statement))
        ensures
            r.0.id == id,
            r.0.request == todo,
            r.0.stage is AwaitBegin,
            r.1 is Begin,
    {
        (UpdateSession { id, request: todo, stage: UpdateStage::AwaitBegin }, Statement::Begin)
    }

    /// Starts deleting the record with `id`; hands out the first statement.
    pub fn delete(id: i32) -> (r: (DeleteSession, Statement))
        ensures
            r.0.id == id,
            r.0.stage is AwaitBegin,
            r.1 is Begin,
    {
        (DeleteSession { id, stage: DeleteStage::AwaitBegin }, Statement::Begin)
    }
}

} // verus!
