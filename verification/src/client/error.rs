//! Errors surfaced by the Radarr/Sonarr API clients, each classified as
//! transient (worth retrying) or permanent.
use vstd::prelude::*;

use crate::text::{concat2, concat3, decimal, u64_to_decimal};

verus! {

#[derive(Debug, Clone)]
pub enum ArrError {
    /// The base URL could not be parsed or joined. Permanent.
    InvalidUrl { instance: String, message: String },
    /// Network-layer failure before a response arrived; the flags record
    /// what the transport reported about it.
    Request { instance: String, is_timeout: bool, is_connect: bool, is_request: bool, message: String },
    /// The request exceeded the per-call timeout. Transient.
    Timeout { instance: String, timeout_ms: u64 },
    /// A 5xx response. Transient.
    Server { instance: String, endpoint: String, status: u16, body: String },
    /// A 4xx response other than 404 and 409. Permanent.
    Client { instance: String, endpoint: String, status: u16, body: String },
    /// A 409 Conflict. Permanent at the wire level.
    Conflict { instance: String, endpoint: String, body: String },
    /// The requested resource does not exist. Permanent.
    NotFound { instance: String, endpoint: String },
    /// The response body did not have the expected shape. Permanent.
    Deserialize { instance: String, endpoint: String, message: String },
}

impl ArrError {
    pub open spec fn spec_is_transient(&self) -> bool {
        match self {
            ArrError::Timeout { .. } | ArrError::Server { .. } => true,
            ArrError::Request { is_timeout, is_connect, is_request, .. } => *is_timeout || *is_connect || *is_request,
            _ => false,
        }
    }

    /// Retry-loop predicate: true if backing off and trying again has any
    /// chance of succeeding.
    pub fn is_transient(&self) -> (r: bool)
        ensures
            r == self.spec_is_transient(),
    {
        match self {
            ArrError::Timeout { .. } | ArrError::Server { .. } => true,
            ArrError::Request { is_timeout, is_connect, is_request, .. } => *is_timeout || *is_connect || *is_request,
            ArrError::InvalidUrl { .. }
            | ArrError::Client { .. }
            | ArrError::Conflict { .. }
            | ArrError::NotFound { .. }
            | ArrError::Deserialize { .. } => false,
        }
    }
}

impl ArrError {
    /// What the error says.
    pub open spec fn spec_message(&self) -> Seq<char> {
        match self {
            ArrError::InvalidUrl { instance, message } => "invalid url for instance `"@ + instance@ + "`: "@
                + message@,
            ArrError::Request { instance, message, .. } => "request error talking to `"@ + instance@ + "`: "@
                + message@,
            ArrError::Timeout { instance, timeout_ms } => "timeout after "@ + decimal(*timeout_ms as nat)
                + "ms talking to `"@ + instance@ + "`"@,
            ArrError::Server { instance, endpoint, status, body } => "server error "@ + decimal(*status as nat)
                + " from `"@ + instance@ + "` on `"@ + endpoint@ + "`: "@ + body@,
            ArrError::Client { instance, endpoint, status, body } => "client error "@ + decimal(*status as nat)
                + " from `"@ + instance@ + "` on `"@ + endpoint@ + "`: "@ + body@,
            ArrError::Conflict { instance, endpoint, body } => "conflict 409 from `"@ + instance@ + "` on `"@
                + endpoint@ + "`: "@ + body@,
            ArrError::NotFound { instance, endpoint } => "not found: `"@ + endpoint@ + "` on `"@ + instance@
                + "`"@,
            ArrError::Deserialize { instance, endpoint, message } => "failed to deserialize response from `"@
                + instance@ + "` on `"@ + endpoint@ + "`: "@ + message@,
        }
    }

    /// Human-readable description.
    pub fn message(&self) -> (r: String)
        ensures
            r@ == self.spec_message(),
    {
        match self {
            ArrError::InvalidUrl { instance, message } => {
                let head = concat3("invalid url for instance `", instance.as_str(), "`: ");
                concat2(head.as_str(), message.as_str())
            },
            ArrError::Request { instance, message, .. } => {
                let head = concat3("request error talking to `", instance.as_str(), "`: ");
                concat2(head.as_str(), message.as_str())
            },
            ArrError::Timeout { instance, timeout_ms } => {
                let ms = u64_to_decimal(*timeout_ms);
                let head = concat3("timeout after ", ms.as_str(), "ms talking to `");
                concat3(head.as_str(), instance.as_str(), "`")
            },
            ArrError::Server { instance, endpoint, status, body } => {
                let st = u64_to_decimal(*status as u64);
                let a = concat3("server error ", st.as_str(), " from `");
                let b = concat3(a.as_str(), instance.as_str(), "` on `");
                let c = concat3(b.as_str(), endpoint.as_str(), "`: ");
                concat2(c.as_str(), body.as_str())
            },
            ArrError::Client { instance, endpoint, status, body } => {
                let st = u64_to_decimal(*status as u64);
                let a = concat3("client error ", st.as_str(), " from `");
                let b = concat3(a.as_str(), instance.as_str(), "` on `");
                let c = concat3(b.as_str(), endpoint.as_str(), "`: ");
                concat2(c.as_str(), body.as_str())
            },
            ArrError::Conflict { instance, endpoint, body } => {
                let a = concat3("conflict 409 from `", instance.as_str(), "` on `");
                let b = concat3(a.as_str(), endpoint.as_str(), "`: ");
                concat2(b.as_str(), body.as_str())
            },
            ArrError::NotFound { instance, endpoint } => {
                let a = concat3("not found: `", endpoint.as_str(), "` on `");
                concat3(a.as_str(), instance.as_str(), "`")
            },
            ArrError::Deserialize { instance, endpoint, message } => {
                let a = concat3("failed to deserialize response from `", instance.as_str(), "` on `");
                let b = concat3(a.as_str(), endpoint.as_str(), "`: ");
                concat2(b.as_str(), message.as_str())
            },
        }
    }
}

} // verus!
