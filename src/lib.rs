//! OAuth2 authorization-code + PKCE flow coordination: authorize URL
//! composition, CSRF-checked single-use code exchange, redirect callback
//! handling and a registry of live sessions.

pub mod auth;
pub mod config;
pub mod encoding;
pub mod error;
pub mod flow;
pub mod listener;
pub mod pkce;
pub mod registry;
