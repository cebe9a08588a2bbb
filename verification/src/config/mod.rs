//! Configuration: resolved types, bootstrap values and stored rows.
pub mod bootstrap;
pub mod rows;
pub mod types;

pub use bootstrap::{Bootstrap, BootstrapError, EnvVars};
pub use types::{
    Config, InstanceConfig, InstanceKind, JellyfinConfig, LanguageDefinition, LanguagesConfig,
    LinkStrategy, QueueConfig,
};
