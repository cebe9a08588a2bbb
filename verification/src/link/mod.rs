//! Filesystem link planning.
//!
//! Maps content between an instance's storage tree and its library tree.
//! The filesystem itself is touched by the caller; this module holds the
//! rules: which relative paths are acceptable, where a link goes, what an
//! existing entry means, and which of two releases of one episode keeps
//! its place in a library.
pub mod episode;
pub mod error;
pub mod manager;
pub mod path;

pub use episode::{dedup_verdict, parse_season_episode, DedupVerdict};
pub use error::{IoErrorKind, LinkError};
pub use manager::{LinkAction, LinkManager};
