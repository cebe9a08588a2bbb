//! Event handling rules — import, delete and cross-instance sync.
pub mod cross_instance;
pub mod delete;
pub mod error;
pub mod import;
pub mod registry;
pub mod targets;

pub use error::HandlerError;
