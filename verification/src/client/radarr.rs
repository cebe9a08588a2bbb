//! Radarr v3 API shapes.
use vstd::prelude::*;

use super::common::{CustomFormat, Language, MediaQuality};

verus! {

/// Movie file metadata.
#[derive(Debug, Clone)]
pub struct MovieFile {
    pub id: u32,
    pub relative_path: Option<String>,
    pub path: Option<String>,
    pub quality: MediaQuality,
    pub languages: Vec<Language>,
    pub custom_formats: Vec<CustomFormat>,
}

/// A movie record as returned by Radarr.
#[derive(Debug, Clone)]
pub struct RadarrMovie {
    pub id: u32,
    pub title: String,
    pub year: u32,
    pub tmdb_id: u32,
    pub imdb_id: Option<String>,
    pub path: Option<String>,
    pub root_folder_path: Option<String>,
    pub quality_profile_id: u32,
    pub has_file: bool,
    pub movie_file: Option<MovieFile>,
    pub original_language: Option<Language>,
}

/// Payload for `POST /api/v3/movie`.
#[derive(Debug, Clone)]
pub struct AddMovieRequest {
    pub title: String,
    pub year: u32,
    pub tmdb_id: u32,
    pub quality_profile_id: u32,
    pub root_folder_path: String,
    pub monitored: bool,
    pub add_options: AddMovieOptions,
}

#[derive(Debug, Clone)]
pub struct AddMovieOptions {
    pub search_for_movie: bool,
}

} // verus!
