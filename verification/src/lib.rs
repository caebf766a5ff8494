//! Runtime configuration of the API server: every setting has a safe default,
//! may be overridden by an environment variable, and is checked against its
//! bounds before the server is built.
pub mod config;
pub mod decimal;
pub mod guarantees;
pub mod lifecycle;
pub mod setting;
