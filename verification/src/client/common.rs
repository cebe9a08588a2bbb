//! API shapes shared by Radarr and Sonarr.
use vstd::prelude::*;

verus! {

/// A quality profile of an arr instance.
#[derive(Debug, Clone)]
pub struct QualityProfile {
    pub id: u32,
    pub name: String,
}

/// A root folder configured on an arr instance.
#[derive(Debug, Clone)]
pub struct RootFolder {
    pub path: String,
}

/// A language entry; `id` ties back to config `radarr_id` / `sonarr_id`.
#[derive(Debug, Clone)]
pub struct Language {
    pub id: u32,
    pub name: String,
}

/// Custom format attached to a media file.
#[derive(Debug, Clone)]
pub struct CustomFormat {
    pub id: u32,
    pub name: String,
}

/// Quality block present on movie/episode file records.
#[derive(Debug, Clone)]
pub struct MediaQuality {
    pub quality: QualityDetail,
}

#[derive(Debug, Clone)]
pub struct QualityDetail {
    pub id: u32,
    pub name: String,
}

/// Outcome of an idempotent add: this caller created the resource, or a
/// concurrent caller had created it already. Both are success.
#[derive(Debug, Clone, PartialEq, Eq)]
pub enum AddOutcome<T> {
    Created(T),
    AlreadyExisted(T),
}

impl<T> AddOutcome<T> {
    pub open spec fn spec_record(&self) -> T {
        match self {
            AddOutcome::Created(r) => *r,
            AddOutcome::AlreadyExisted(r) => *r,
        }
    }

    /// Borrow the inner record regardless of which branch fired.
    pub fn record(&self) -> (r: &T)
        ensures
            *r == self.spec_record(),
    {
        match self {
            AddOutcome::Created(r) => r,
            AddOutcome::AlreadyExisted(r) => r,
        }
    }

    /// Move the inner record out, discarding the variant tag.
    pub fn into_record(self) -> (r: T)
        ensures
            r == self.spec_record(),
    {
        match self {
            AddOutcome::Created(r) => r,
            AddOutcome::AlreadyExisted(r) => r,
        }
    }
}

} // verus!
