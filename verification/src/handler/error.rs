//! Handler-layer errors and their retry classification.
use vstd::prelude::*;

use crate::client::ArrError;
use crate::detection::DetectionError;
use crate::link::LinkError;
use crate::queue::QueueError;
use crate::text::{concat2, concat3, quote, quoted};

verus! {

#[derive(Debug, Clone)]
pub enum HandlerError {
    Arr(ArrError),
    Link(LinkError),
    Detection(DetectionError),
    UnknownInstance(String),
    MissingField(&'static str),
    MalformedPath(String),
    Decode(String),
    Queue(QueueError),
}

impl HandlerError {
    pub open spec fn spec_is_transient(&self) -> bool {
        match self {
            HandlerError::Arr(e) => e.spec_is_transient(),
            HandlerError::Link(LinkError::Io { .. }) => true,
            _ => false,
        }
    }

    /// `true` when retrying the job has any chance of succeeding: arr
    /// errors defer to their own classification, link I/O errors are
    /// transient, everything else is permanent.
    pub fn is_transient(&self) -> (r: bool)
        ensures
            r == self.spec_is_transient(),
    {
        match self {
            HandlerError::Arr(e) => e.is_transient(),
            HandlerError::Link(LinkError::Io { .. }) => true,
            HandlerError::Link(_)
            | HandlerError::Detection(_)
            | HandlerError::UnknownInstance(_)
            | HandlerError::MissingField(_)
            | HandlerError::MalformedPath(_)
            | HandlerError::Decode(_)
            | HandlerError::Queue(_) => false,
        }
    }
}

impl HandlerError {
    /// What the error says; a wrapped error's own text follows its prefix.
    pub open spec fn spec_message(&self) -> Seq<char> {
        match self {
            HandlerError::Arr(e) => "arr api error: "@ + e.spec_message(),
            HandlerError::Link(e) => "link manager error: "@ + e.spec_message(),
            HandlerError::Detection(e) => "language detection failed: "@ + e.spec_message(),
            HandlerError::UnknownInstance(n) => "instance `"@ + n@ + "` is not registered with the handler"@,
            HandlerError::MissingField(f) => "payload missing required field: "@ + f@,
            HandlerError::MalformedPath(p) => "malformed path: "@ + quoted(p@),
            HandlerError::Decode(m) => "failed to decode job payload: "@ + m@,
            HandlerError::Queue(e) => "queue error: "@ + e.spec_message(),
        }
    }

    /// Human-readable description.
    pub fn message(&self) -> (r: String)
        ensures
            r@ == self.spec_message(),
    {
        match self {
            HandlerError::Arr(e) => {
                let m = e.message();
                concat2("arr api error: ", m.as_str())
            },
            HandlerError::Link(e) => {
                let m = e.message();
                concat2("link manager error: ", m.as_str())
            },
            HandlerError::Detection(e) => {
                let m = e.message();
                concat2("language detection failed: ", m.as_str())
            },
            HandlerError::UnknownInstance(n) => concat3("instance `", n.as_str(), "` is not registered with the handler"),
            HandlerError::MissingField(f) => concat2("payload missing required field: ", f),
            HandlerError::MalformedPath(p) => {
                let q = quote(p.as_str());
                concat2("malformed path: ", q.as_str())
            },
            HandlerError::Decode(m) => concat2("failed to decode job payload: ", m.as_str()),
            HandlerError::Queue(e) => {
                let m = e.message();
                concat2("queue error: ", m.as_str())
            },
        }
    }
}

} // verus!
