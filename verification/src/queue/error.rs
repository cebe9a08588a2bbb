//! Queue errors.
use vstd::prelude::*;

use crate::text::{concat2, concat3};

verus! {

/// Queue failures; storage and payload failures carry the message of the
/// underlying error.
#[derive(Debug, Clone)]
pub enum QueueError {
    Db(String),
    Sqlx(String),
    Payload(String),
    UnknownKind(String),
    InvalidStatus(String),
}

impl QueueError {
    /// What the error says.
    pub open spec fn spec_message(&self) -> Seq<char> {
        match self {
            QueueError::Db(m) => "database error: "@ + m@,
            QueueError::Sqlx(m) => "sqlx error: "@ + m@,
            QueueError::Payload(m) => "failed to (de)serialize job payload: "@ + m@,
            QueueError::UnknownKind(k) => "invalid job kind in database: `"@ + k@
                + "` — handler registry out of sync with schema"@,
            QueueError::InvalidStatus(t) => "invalid job status in database: `"@ + t@
                + "` — schema check should have prevented this"@,
        }
    }

    /// Human-readable description.
    pub fn message(&self) -> (r: String)
        ensures
            r@ == self.spec_message(),
    {
        match self {
            QueueError::Db(m) => concat2("database error: ", m.as_str()),
            QueueError::Sqlx(m) => concat2("sqlx error: ", m.as_str()),
            QueueError::Payload(m) => concat2("failed to (de)serialize job payload: ", m.as_str()),
            QueueError::UnknownKind(k) => concat3(
                "invalid job kind in database: `",
                k.as_str(),
                "` — handler registry out of sync with schema",
            ),
            QueueError::InvalidStatus(t) => concat3(
                "invalid job status in database: `",
                t.as_str(),
                "` — schema check should have prevented this",
            ),
        }
    }
}

} // verus!
