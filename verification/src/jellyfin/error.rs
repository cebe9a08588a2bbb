//! Jellyfin integration errors.
use vstd::prelude::*;

use crate::text::{concat2, decimal, u64_to_decimal};

verus! {

/// Failures of a library refresh; URL and transport failures carry the
/// message of the underlying error.
#[derive(Debug, Clone)]
pub enum JellyfinError {
    InvalidUrl(String),
    Request(String),
    /// The server answered with a status outside 2xx.
    Status { status: u16 },
}

impl JellyfinError {
    /// What the error says.
    pub open spec fn spec_message(&self) -> Seq<char> {
        match self {
            JellyfinError::InvalidUrl(m) => "invalid jellyfin url: "@ + m@,
            JellyfinError::Request(m) => "jellyfin request error: "@ + m@,
            JellyfinError::Status { status } => "jellyfin server returned "@ + decimal(*status as nat),
        }
    }

    /// Human-readable description.
    pub fn message(&self) -> (r: String)
        ensures
            r@ == self.spec_message(),
    {
        match self {
            JellyfinError::InvalidUrl(m) => concat2("invalid jellyfin url: ", m.as_str()),
            JellyfinError::Request(m) => concat2("jellyfin request error: ", m.as_str()),
            JellyfinError::Status { status } => {
                let d = u64_to_decimal(*status as u64);
                concat2("jellyfin server returned ", d.as_str())
            },
        }
    }
}

/// A refresh succeeded exactly when the server answered 2xx.
pub fn refresh_outcome(status: u16) -> (r: Result<(), JellyfinError>)
    ensures
        200 <= status <= 299 <==> r is Ok,
        r matches Err(e) ==> e == (JellyfinError::Status { status }),
{
    if 200 <= status && status <= 299 {
        Ok(())
    } else {
        Err(JellyfinError::Status { status })
    }
}

} // verus!
