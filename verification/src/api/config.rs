//! General settings: the primary language and the worker count.
use vstd::prelude::*;
use super::error::{ApiError, STATUS_BAD_REQUEST};
use crate::text::{concat3, decimal, parse_unsigned, parse_unsigned_exec, u64_to_decimal};

verus! {

/// The general settings as the API reads and writes them.
#[derive(Debug, Clone)]
pub struct GeneralConfigDto {
    pub primary_language: String,
    pub queue_concurrency: u32,
}

/// Worker count when none is stored or the stored text is not a `u32`.
pub const DEFAULT_QUEUE_CONCURRENCY: u32 = 2;

/// The worker count that the stored text `value` stands for.
pub open spec fn stored_concurrency(value: Option<Seq<char>>) -> u32 {
    match value {
        Some(v) => match parse_unsigned(v, u32::MAX as int) {
            Some(n) => n as u32,
            None => DEFAULT_QUEUE_CONCURRENCY,
        },
        None => DEFAULT_QUEUE_CONCURRENCY,
    }
}

impl GeneralConfigDto {
    /// The settings read back from the stored values: a missing primary
    /// language reads as empty, a missing or unreadable worker count as 2.
    pub fn from_stored(primary: Option<String>, concurrency: Option<String>) -> (r: Self)
        ensures
            r.primary_language@ == match primary {
                Some(p) => p@,
                None => Seq::<char>::empty(),
            },
            r.queue_concurrency == stored_concurrency(
                match concurrency {
                    Some(c) => Some(c@),
                    None => None,
                },
            ),
    {
        let primary_language = match primary {
            Some(p) => p,
            None => String::new(),
        };
        let queue_concurrency = match concurrency {
            Some(c) => match parse_unsigned_exec(c.as_str(), 4294967295u64) {
                Some(n) => {
                    proof {
                        let v = parse_unsigned(c@, u32::MAX as int)->0;
                        assert(v <= u32::MAX);
                        assert(n as int == v);
                    }
                    n as u32
                },
                None => DEFAULT_QUEUE_CONCURRENCY,
            },
            None => DEFAULT_QUEUE_CONCURRENCY,
        };
        GeneralConfigDto { primary_language, queue_concurrency }
    }

    /// The checks on a body that need no lookup: the primary language must
    /// be set and the worker count positive, in that order.
    pub fn check(&self) -> (r: Result<(), ApiError>)
        ensures
            self.primary_language@.len() == 0 ==> (r matches Err(e) && e@ == (
                STATUS_BAD_REQUEST,
                "primary_language must not be empty"@,
            )),
            self.primary_language@.len() > 0 && self.queue_concurrency == 0 ==> (r matches Err(e)
                && e@ == (STATUS_BAD_REQUEST, "queue_concurrency must be greater than 0"@)),
            self.primary_language@.len() > 0 && self.queue_concurrency > 0 ==> r is Ok,
    {
        if self.primary_language.as_str().is_empty() {
            return Err(ApiError::BadRequest(String::from_str("primary_language must not be empty")));
        }
        if self.queue_concurrency == 0 {
            return Err(ApiError::BadRequest(String::from_str("queue_concurrency must be greater than 0")));
        }
        Ok(())
    }

    /// The 400 for a primary language that is not defined.
    pub fn unknown_primary(&self) -> (r: ApiError)
        ensures
            r@ == (STATUS_BAD_REQUEST, "language '"@ + self.primary_language@ + "' not found — create it first"@),
    {
        ApiError::BadRequest(concat3("language '", self.primary_language.as_str(), "' not found — create it first"))
    }

    /// The text stored for the worker count.
    pub fn concurrency_text(&self) -> (r: String)
        ensures
            r@ == decimal(self.queue_concurrency as nat),
    {
        u64_to_decimal(self.queue_concurrency as u64)
    }
}

/// The worker count stored as text reads back as the same count.
pub proof fn law_concurrency_round_trips(n: u32)
    ensures
        stored_concurrency(Some(decimal(n as nat))) == n,
{
    crate::text::law_decimal_parses_back(n as nat, u32::MAX as int);
}

} // verus!
