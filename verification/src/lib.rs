//! A streaming fan-out copy library: the verified core of a tool that
//! copies a byte stream from one source to one or more destinations,
//! optionally reporting transfer progress.

pub mod config;
pub mod engine;
pub mod errors;
pub mod progress;

