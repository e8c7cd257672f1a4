//! Verified core of the MESHH terminal client.
pub mod api;
pub mod cli;
pub mod config;
pub mod credentials;
pub mod login;
pub mod paths;
pub mod release;
pub mod release_audit;
pub mod text;
pub mod tui;
pub mod update;
pub mod version;
