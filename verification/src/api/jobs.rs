//! Query of the job listing endpoint.
use vstd::prelude::*;
use super::error::{ApiError, STATUS_BAD_REQUEST};
use crate::queue::job::{status_of_text, JobStatus};
use crate::text::concat3;

verus! {

/// Filters of `GET /api/v1/jobs`.
#[derive(Debug, Clone)]
pub struct ListQuery {
    /// Only jobs with this status (`pending`, `claimed`, `completed`,
    /// `failed`, `dead_letter`).
    pub status: Option<String>,
    /// At most this many jobs (default 100).
    pub limit: Option<u32>,
}

/// Listing size when the query gives none.
pub const DEFAULT_LIST_LIMIT: u32 = 100;

impl ListQuery {
    /// The status filter and the limit of the listing; an unknown status is a 400.
    pub fn resolve(&self) -> (r: Result<(Option<JobStatus>, u32), ApiError>)
        ensures
            match self.status {
                Some(s) => match status_of_text(s@) {
                    Some(st) => r matches Ok((f, _)) && f == Some(st),
                    None => r matches Err(e) && e@ == (STATUS_BAD_REQUEST, "invalid status '"@ + s@ + "'"@),
                },
                None => r matches Ok((f, _)) && f is None,
            },
            r matches Ok((_, n)) ==> n == match self.limit {
                Some(l) => l,
                None => DEFAULT_LIST_LIMIT,
            },
    {
        let filter = match &self.status {
            Some(s) => match JobStatus::parse(s.as_str()) {
                Ok(st) => Some(st),
                Err(_) => {
                    return Err(ApiError::BadRequest(concat3("invalid status '", s.as_str(), "'")));
                },
            },
            None => None,
        };
        let limit = match self.limit {
            Some(l) => l,
            None => DEFAULT_LIST_LIMIT,
        };
        Ok((filter, limit))
    }
}

} // verus!
