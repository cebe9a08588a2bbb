//! Media-server refresh: the refresh capability, its no-op implementation,
//! Jellyfin's error type and the debouncer that collapses bursts of
//! refresh requests into one library refresh.
pub mod debounce;
pub mod error;
pub mod service;

pub use debounce::{debounce_step, DebounceState, PumpAction, PumpEvent};
pub use error::JellyfinError;
pub use service::{MediaServer, NoopMediaServer};
