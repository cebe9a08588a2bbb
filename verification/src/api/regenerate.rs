//! Preconditions of the library regeneration endpoint.
use vstd::prelude::*;
use super::error::{ApiError, STATUS_BAD_REQUEST};
use crate::config::types::Config;

verus! {

/// Query of `POST /api/v1/admin/regenerate`.
#[derive(Debug, Clone, Copy, Default)]
pub struct RegenerateQuery {
    /// Report what would be done without creating links.
    pub dry_run: bool,
}

/// Whether regeneration can run: it needs ffprobe, a loaded configuration
/// and at least one instance, checked in that order.
pub fn check_regenerate(has_detector: bool, config: Option<&Config>) -> (r: Result<(), ApiError>)
    ensures
        !has_detector ==> (r matches Err(e) && e@ == (STATUS_BAD_REQUEST, "ffprobe not available on this host"@)),
        has_detector && config is None ==> (r matches Err(e) && e@ == (
            STATUS_BAD_REQUEST,
            "no config loaded — complete setup first"@,
        )),
        has_detector ==> match config {
            Some(c) => if c.instances@.len() == 0 {
                r matches Err(e) && e@ == (
                    STATUS_BAD_REQUEST,
                    "no instances configured — add at least one via POST /api/v1/instances"@,
                )
            } else {
                r is Ok
            },
            None => true,
        },
{
    if !has_detector {
        return Err(ApiError::BadRequest(String::from_str("ffprobe not available on this host")));
    }
    match config {
        None => Err(ApiError::BadRequest(String::from_str("no config loaded — complete setup first"))),
        Some(c) => {
            if c.instances.len() == 0 {
                Err(ApiError::BadRequest(
                    String::from_str("no instances configured — add at least one via POST /api/v1/instances"),
                ))
            } else {
                Ok(())
            }
        },
    }
}

} // verus!
