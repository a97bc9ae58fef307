//! Session lifecycle, session registry and request rate limiting for a web
//! gateway in front of a native password-manager engine.
//!
//! The engine itself lives behind a C interface that the surrounding program
//! calls; this library decides what to create, keep, expire and release, and
//! hands the native work back as plain values.

pub mod config;
pub mod models;
pub mod rate_limiter;
pub mod registry;
pub mod request;
pub mod response;
pub mod session;
pub mod session_id;
pub mod status;
pub mod sweeper;
pub mod text;
pub mod utils;
