use vstd::prelude::*;

verus! {

/// What a caller supplies to create or update a record.
pub struct TodoRequest {
    pub description: String,
    pub done: bool,
}

/// One stored record. `done` is kept as the store keeps it: a small integer.
pub struct Todo {
    pub id: i32,
    pub description: String,
    pub done: i8,
}

/// How the store writes a `done` state.
pub open spec fn done_flag(done: bool) -> i8 {
    if done { 1 } else { 0 }
}

/// How a stored flag reads back: any non-zero value counts as done.
pub open spec fn flag_done(flag: i8) -> bool {
    flag != 0
}

/// Writing a `done` state and reading it back gives the same state.
pub proof fn lemma_done_round_trip(done: bool)
    ensures
        flag_done(done_flag(done)) == done,
{
}

/// The stored form of a `done` state.
pub fn to_flag(done: bool) -> (r: i8)
    ensures
        r == done_flag(done),
{
    if done { 1 } else { 0 }
}

/// The record a request becomes once the store has given it `id`.
pub open spec fn record_of(id: int, request: TodoRequest) -> Todo {
    Todo { id: id as i32, description: request.description, done: done_flag(request.done) }
}

impl Todo {
    /// Whether the record is done, read from its stored flag.
    pub fn is_done(&self) -> (r: bool)
        ensures
            r == flag_done(self.done),
    {
        self.done != 0
    }

    /// A copy of the record, equal to it field by field.
    pub fn duplicate(&self) -> (r: Todo)
        ensures
            r == *self,
    {
        Todo { id: self.id, description: self.description.clone(), done: self.done }
    }
}

} // verus!
