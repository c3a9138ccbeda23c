//! Record access for a single "todo" entity kept in a relational store.
//!
//! The operations are written as sessions: each one hands out the statement
//! to run next, takes the store's reply, and decides what follows. The code
//! that talks to a real database only runs statements and feeds the replies
//! back; every decision is made (and verified) here.
use vstd::prelude::*;

pub mod todo;
pub mod statement;
pub mod session;
pub mod memory;

verus! {

} // verus!
