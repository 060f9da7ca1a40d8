//! The token endpoint.

pub mod extractor;
pub mod handler;
pub mod jwt;
