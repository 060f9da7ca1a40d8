//! The authorization endpoint.

pub mod extractor;
pub mod handler;
