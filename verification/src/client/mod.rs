//! Radarr and Sonarr API model: shapes, error classification, retries.
pub mod address;
pub mod common;
pub mod error;
pub mod http;
pub mod radarr;
pub mod sonarr;

pub use common::{AddOutcome, CustomFormat, Language, MediaQuality, QualityDetail, QualityProfile, RootFolder};
pub use error::ArrError;
pub use radarr::{AddMovieOptions, AddMovieRequest, MovieFile, RadarrMovie};
pub use sonarr::{AddSeriesOptions, AddSeriesRequest, EpisodeFile, SeasonInfo, SonarrSeries};
