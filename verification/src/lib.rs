//! Authorization core of a self-hosted deployment dashboard.
//!
//! Given a user identity obtained through GitHub OAuth, the library decides
//! which deployed projects that user may see and read configuration for, and
//! issues a signed session credential used on subsequent requests.  All
//! decision logic lives here with machine-checked contracts; the surrounding
//! binary performs the network and filesystem traffic and hands plain values
//! in and out.

pub mod access;
pub mod api;
pub mod auth;
pub mod config;
pub mod env_file;
pub mod errors;
pub mod github;
pub mod registry;
pub mod settings;
