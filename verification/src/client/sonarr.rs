//! Sonarr v3 API shapes.
use vstd::prelude::*;

use super::common::{CustomFormat, Language, MediaQuality};

verus! {

/// An episode file record.
#[derive(Debug, Clone)]
pub struct EpisodeFile {
    pub id: u32,
    pub series_id: u32,
    pub season_number: Option<u32>,
    pub relative_path: Option<String>,
    pub path: Option<String>,
    pub quality: MediaQuality,
    pub languages: Vec<Language>,
    pub custom_formats: Vec<CustomFormat>,
}

#[derive(Debug, Clone, Copy)]
pub struct SeasonInfo {
    pub season_number: u32,
    pub monitored: bool,
}

/// A series record as returned by Sonarr.
#[derive(Debug, Clone)]
pub struct SonarrSeries {
    pub id: u32,
    pub title: String,
    pub year: Option<u32>,
    pub tvdb_id: u32,
    pub path: Option<String>,
    pub root_folder_path: Option<String>,
    pub quality_profile_id: u32,
    pub season_folder: bool,
    pub monitored: bool,
    pub seasons: Vec<SeasonInfo>,
    pub original_language: Option<Language>,
}

/// Payload for `POST /api/v3/series`.
#[derive(Debug, Clone)]
pub struct AddSeriesRequest {
    pub title: String,
    pub year: Option<u32>,
    pub tvdb_id: u32,
    pub quality_profile_id: u32,
    pub root_folder_path: String,
    pub season_folder: bool,
    pub monitored: bool,
    pub seasons: Vec<SeasonInfo>,
    pub add_options: AddSeriesOptions,
}

#[derive(Debug, Clone)]
pub struct AddSeriesOptions {
    pub search_for_missing_episodes: bool,
}

} // verus!
