//! Registry lookups and the classification of a handled job.
use vstd::prelude::*;

use super::error::HandlerError;
use crate::config::InstanceConfig;
use crate::queue::ProcessOutcome;

verus! {

/// Look up an instance by name.
pub fn find_instance(instances: &Vec<InstanceConfig>, name: &str) -> (r: Result<usize, HandlerError>)
    ensures
        match r {
            Ok(i) => i < instances@.len() && instances@[i as int].name@ == name@
                && forall|j: int| i < j < instances@.len() ==> instances@[j].name@ != name@,
            Err(e) => e matches HandlerError::UnknownInstance(n) && n@ == name@
                && forall|j: int| 0 <= j < instances@.len() ==> instances@[j].name@ != name@,
        },
{
    let mut i: usize = instances.len();
    while i > 0
        invariant
            i <= instances@.len(),
            forall|j: int| i <= j < instances@.len() ==> instances@[j].name@ != name@,
        decreases i,
    {
        i = i - 1;
        if crate::text::str_eq(instances[i].name.as_str(), name) {
            return Ok(i);
        }
    }
    Err(HandlerError::UnknownInstance(name.to_string()))
}

/// The outcome recorded for a handled job: success, or the error's
/// `message` classified transient or permanent.
pub fn outcome_of(result: &Result<(), HandlerError>, message: String) -> (r: ProcessOutcome)
    ensures
        match result {
            Ok(()) => r is Success,
            Err(e) => if e.spec_is_transient() {
                r == ProcessOutcome::Transient(message)
            } else {
                r == ProcessOutcome::Permanent(message)
            },
        },
{
    match result {
        Ok(()) => ProcessOutcome::Success,
        Err(e) => if e.is_transient() {
            ProcessOutcome::Transient(message)
        } else {
            ProcessOutcome::Permanent(message)
        },
    }
}

} // verus!

verus! {

/// Job kind of Radarr webhook jobs.
pub open spec fn radarr_job_kind() -> Seq<char> {
    "radarr_webhook"@
}

/// Job kind of Sonarr webhook jobs.
pub open spec fn sonarr_job_kind() -> Seq<char> {
    "sonarr_webhook"@
}

/// Which handler a job goes to.
#[derive(Debug, Clone, Copy, PartialEq, Eq, Structural)]
pub enum JobRoute {
    Radarr,
    Sonarr,
}

/// Route a job by its kind; an unknown kind is a permanent decode error.
pub fn route_job(kind: &str) -> (r: Result<JobRoute, HandlerError>)
    ensures
        kind@ == radarr_job_kind() ==> r == Ok::<JobRoute, HandlerError>(JobRoute::Radarr),
        kind@ != radarr_job_kind() && kind@ == sonarr_job_kind() ==> r == Ok::<JobRoute, HandlerError>(JobRoute::Sonarr),
        kind@ != radarr_job_kind() && kind@ != sonarr_job_kind() ==> (r matches Err(HandlerError::Decode(m))
            && m@ == "unknown job kind: "@ + kind@),
        r matches Err(e) ==> !e.spec_is_transient(),
{
    if crate::text::str_eq(kind, "radarr_webhook") {
        Ok(JobRoute::Radarr)
    } else if crate::text::str_eq(kind, "sonarr_webhook") {
        Ok(JobRoute::Sonarr)
    } else {
        Err(HandlerError::Decode(crate::text::concat2("unknown job kind: ", kind)))
    }
}

/// The `status` label under which a handled job is counted.
pub fn outcome_label(outcome: &ProcessOutcome) -> (r: &'static str)
    ensures
        r@ == match outcome {
            ProcessOutcome::Success => "success"@,
            ProcessOutcome::Transient(_) => "transient"@,
            ProcessOutcome::Permanent(_) => "permanent"@,
        },
{
    match outcome {
        ProcessOutcome::Success => "success",
        ProcessOutcome::Transient(_) => "transient",
        ProcessOutcome::Permanent(_) => "permanent",
    }
}

} // verus!
