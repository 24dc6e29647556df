//! Verified core of an OpenID Connect login adapter for Jitsi Meet.
pub mod clock;
pub mod config;
pub mod error;
pub mod ids;
pub mod web_url;
pub mod session;
pub mod json;
pub mod jwt;
pub mod claims;
pub mod login;
