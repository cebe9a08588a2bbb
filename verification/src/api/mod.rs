//! Configuration API: the request and response shapes of `/api/v1/*` and
//! the decisions its handlers take.
pub mod auth;
pub mod config;
pub mod error;
pub mod instances;
pub mod jobs;
pub mod languages;
pub mod regenerate;
pub mod schema;
pub mod setup;

pub use auth::{require_api_key, AuthDecision};
pub use config::GeneralConfigDto;
pub use error::ApiError;
pub use instances::{default_true, InstanceDto};
pub use jobs::ListQuery;
pub use languages::{CreateLanguageRequest, LanguageDefinitionDto, LanguageResponse};
pub use regenerate::RegenerateQuery;
pub use setup::{collect_missing_items, SetupStatus};
