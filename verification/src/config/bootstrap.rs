//! Bootstrap settings, read from the `MULTILINGUARR_*` environment
//! variables: enough to open the database and start the HTTP server.
use vstd::prelude::*;
use crate::text::{concat2, concat3, parse_unsigned, parse_unsigned_exec};

verus! {

/// The values of the bootstrap environment variables (`None` when a
/// variable is unset or not valid Unicode).
#[derive(Debug, Clone, Default)]
pub struct EnvVars {
    /// `MULTILINGUARR_API_KEY` (required).
    pub api_key: Option<String>,
    /// `MULTILINGUARR_MEDIA_BASE_PATH` (required).
    pub media_base_path: Option<String>,
    /// `MULTILINGUARR_PORT` (default 3100).
    pub port: Option<String>,
    /// `MULTILINGUARR_DATABASE_PATH` (default `/data/multilinguarr.db`).
    pub database_path: Option<String>,
    /// `MULTILINGUARR_LOG_LEVEL` (default `info`).
    pub log_level: Option<String>,
}

/// Minimal configuration parsed at startup.
#[derive(Debug, Clone)]
pub struct Bootstrap {
    pub port: u16,
    pub api_key: String,
    pub media_base_path: String,
    pub database_path: String,
    pub log_level: String,
}

/// Errors of the bootstrap parsing.
#[derive(Debug, Clone)]
pub enum BootstrapError {
    /// A required variable is not set.
    Missing(String),
    /// A variable holds a value that cannot be used.
    InvalidValue { var: String, value: String },
}

pub const DEFAULT_PORT: u16 = 3100;

/// `v`'s text, or `default` when it is absent.
pub open spec fn text_or(v: Option<String>, default: Seq<char>) -> Seq<char> {
    match v {
        Some(s) => s@,
        None => default,
    }
}

/// Port given by the variable's value, `None` when the value is not a `u16`.
pub open spec fn port_of(v: Option<String>) -> Option<u16> {
    match v {
        Some(s) => match parse_unsigned(s@, u16::MAX as int) {
            Some(n) => Some(n as u16),
            None => None,
        },
        None => Some(DEFAULT_PORT),
    }
}

fn text_or_default(v: Option<String>, default: &str) -> (r: String)
    ensures
        r@ == text_or(v, default@),
{
    match v {
        Some(s) => s,
        None => String::from_str(default),
    }
}

impl Bootstrap {
    /// Parse the bootstrap settings. The API key is checked first, then the
    /// media base path, then the port.
    pub fn from_env(vars: EnvVars) -> (r: Result<Bootstrap, BootstrapError>)
        ensures
            vars.api_key is None ==> (r matches Err(BootstrapError::Missing(v)) && v@ == "MULTILINGUARR_API_KEY"@),
            vars.api_key is Some && vars.media_base_path is None ==> (r matches Err(BootstrapError::Missing(v))
                && v@ == "MULTILINGUARR_MEDIA_BASE_PATH"@),
            vars.api_key is Some && vars.media_base_path is Some && port_of(vars.port) is None ==> (r matches Err(
                BootstrapError::InvalidValue { var, value },
            ) && var@ == "MULTILINGUARR_PORT"@ && value@ == vars.port->0@),
            vars.api_key is Some && vars.media_base_path is Some && port_of(vars.port) is Some ==> (r matches Ok(b)
                && Some(b.port) == port_of(vars.port)
                && b.api_key@ == vars.api_key->0@
                && b.media_base_path@ == vars.media_base_path->0@
                && b.database_path@ == text_or(vars.database_path, "/data/multilinguarr.db"@)
                && b.log_level@ == text_or(vars.log_level, "info"@)),
    {
        let api_key = match vars.api_key {
            Some(k) => k,
            None => return Err(BootstrapError::Missing(String::from_str("MULTILINGUARR_API_KEY"))),
        };
        let media_base_path = match vars.media_base_path {
            Some(p) => p,
            None => return Err(BootstrapError::Missing(String::from_str("MULTILINGUARR_MEDIA_BASE_PATH"))),
        };
        let port: u16 = match vars.port {
            Some(v) => match parse_unsigned_exec(v.as_str(), 65535u64) {
                Some(n) => n as u16,
                None => {
                    return Err(BootstrapError::InvalidValue { var: String::from_str("MULTILINGUARR_PORT"), value: v });
                },
            },
            None => DEFAULT_PORT,
        };
        let database_path = text_or_default(vars.database_path, "/data/multilinguarr.db");
        let log_level = text_or_default(vars.log_level, "info");
        Ok(Bootstrap { port, api_key, media_base_path, database_path, log_level })
    }
}

impl BootstrapError {
    /// Human-readable description.
    pub fn message(&self) -> (r: String)
        ensures
            match self {
                BootstrapError::Missing(v) => r@ == "required environment variable "@ + v@ + " is not set"@,
                BootstrapError::InvalidValue { var, value } => r@
                    == "environment variable "@ + var@ + " has invalid value: "@ + value@,
            },
    {
        match self {
            BootstrapError::Missing(v) => concat3("required environment variable ", v.as_str(), " is not set"),
            BootstrapError::InvalidValue { var, value } => {
                let head = concat3("environment variable ", var.as_str(), " has invalid value: ");
                let r = concat2(head.as_str(), value.as_str());
                r
            },
        }
    }
}

} // verus!
