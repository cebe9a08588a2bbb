//! Event payloads delivered by Radarr and Sonarr webhooks, as far as the
//! handlers read them.
use vstd::prelude::*;

verus! {

#[derive(Debug, Clone, Default)]
pub struct RadarrMovieRef {
    pub id: u32,
    pub title: String,
    pub year: u32,
    pub tmdb_id: u32,
    pub folder_path: Option<String>,
}

#[derive(Debug, Clone, Default)]
pub struct RadarrMovieFileRef {
    pub id: u32,
    pub path: Option<String>,
    pub relative_path: Option<String>,
}

/// Radarr `Download` event (import or upgrade).
#[derive(Debug, Clone, Default)]
pub struct RadarrDownload {
    pub movie: Option<RadarrMovieRef>,
    pub movie_file: Option<RadarrMovieFileRef>,
    pub is_upgrade: bool,
}

/// Radarr `MovieDelete` event.
#[derive(Debug, Clone, Default)]
pub struct RadarrMovieDelete {
    pub movie: Option<RadarrMovieRef>,
    pub deleted_files: bool,
}

/// Radarr `MovieFileDelete` event.
#[derive(Debug, Clone, Default)]
pub struct RadarrMovieFileDelete {
    pub movie: Option<RadarrMovieRef>,
}

#[derive(Debug, Clone, Default)]
pub struct SonarrSeriesRef {
    pub id: u32,
    pub title: String,
    pub tvdb_id: u32,
    pub path: Option<String>,
}

#[derive(Debug, Clone, Default)]
pub struct SonarrEpisodeRef {
    pub id: u32,
    pub episode_number: u32,
    pub season_number: u32,
}

#[derive(Debug, Clone, Default)]
pub struct SonarrEpisodeFileRef {
    pub id: u32,
    pub path: Option<String>,
    pub relative_path: Option<String>,
}

/// Sonarr `Download` event (import or upgrade).
#[derive(Debug, Clone, Default)]
pub struct SonarrDownload {
    pub series: Option<SonarrSeriesRef>,
    pub episodes: Vec<SonarrEpisodeRef>,
    pub episode_file: Option<SonarrEpisodeFileRef>,
    pub is_upgrade: bool,
}

/// Sonarr `SeriesDelete` event.
#[derive(Debug, Clone, Default)]
pub struct SonarrSeriesDelete {
    pub series: Option<SonarrSeriesRef>,
    pub deleted_files: bool,
}

/// Sonarr `EpisodeFileDelete` event.
#[derive(Debug, Clone, Default)]
pub struct SonarrEpisodeFileDelete {
    pub series: Option<SonarrSeriesRef>,
    pub episode_file: Option<SonarrEpisodeFileRef>,
}

/// The `eventType` of a Radarr webhook.
#[derive(Debug, Clone, Copy, PartialEq, Eq, Structural)]
pub enum RadarrEventType {
    Download,
    MovieDelete,
    MovieFileDelete,
    Test,
    Grab,
    Rename,
    MovieAdded,
    MovieFileRenamed,
    Health,
    HealthRestored,
    ApplicationUpdate,
    ManualInteractionRequired,
    Unknown,
}

/// The `eventType` of a Sonarr webhook.
#[derive(Debug, Clone, Copy, PartialEq, Eq, Structural)]
pub enum SonarrEventType {
    Download,
    SeriesDelete,
    EpisodeFileDelete,
    Test,
    Grab,
    Rename,
    SeriesAdd,
    Health,
    HealthRestored,
    ApplicationUpdate,
    ManualInteractionRequired,
    Unknown,
}

/// Only Radarr events that change files on disk are queued: an import, a
/// movie delete and a movie-file delete.
pub fn radarr_event_is_actionable(t: RadarrEventType) -> (r: bool)
    ensures
        r == (t == RadarrEventType::Download || t == RadarrEventType::MovieDelete
            || t == RadarrEventType::MovieFileDelete),
{
    match t {
        RadarrEventType::Download | RadarrEventType::MovieDelete | RadarrEventType::MovieFileDelete => true,
        _ => false,
    }
}

/// Only Sonarr events that change files on disk are queued: an import, a
/// series delete and an episode-file delete.
pub fn sonarr_event_is_actionable(t: SonarrEventType) -> (r: bool)
    ensures
        r == (t == SonarrEventType::Download || t == SonarrEventType::SeriesDelete
            || t == SonarrEventType::EpisodeFileDelete),
{
    match t {
        SonarrEventType::Download | SonarrEventType::SeriesDelete | SonarrEventType::EpisodeFileDelete => true,
        _ => false,
    }
}

} // verus!
