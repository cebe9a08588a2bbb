//! multilinguarr — multi-language media enforcement for the *arr stack.
pub mod api;
pub mod client;
pub mod config;
pub mod detection;
pub mod handler;
pub mod jellyfin;
pub mod link;
pub mod queue;
pub mod reconcile;
pub mod text;
pub mod time;
pub mod webhook;
