//! What the database layer computes; the queries themselves run in the server.
use vstd::prelude::*;

pub mod subscription;
pub mod watch_history;

verus! {

/// A failed database operation: a unique-constraint violation, or another failure,
/// each with the database's message.
#[derive(Debug, Clone, PartialEq, Eq)]
pub enum DbError {
    UniqueViolation(String),
    Other(String),
}

impl DbError {
    pub open spec fn message_view(&self) -> Seq<char> {
        match self {
            DbError::UniqueViolation(m) => m@,
            DbError::Other(m) => m@,
        }
    }
}

} // verus!
