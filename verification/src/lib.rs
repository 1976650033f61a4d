//! Batch query engine for an IP-reputation web service.
//!
//! The library covers the logic of the client: building the query-parameter
//! lists for the three endpoints, normalizing the heterogeneous JSON response
//! shapes into output units, the batch state machine with its abort-on-first
//! -error policy, and the handling of the configuration document that holds
//! the API key. Network and file I/O stay outside; callers hand response
//! bodies in as plain strings and take output units back as plain strings.

pub mod config;
pub mod digits;
pub mod errors;
pub mod json;
pub mod normalize;
pub mod request;
pub mod runner;
pub mod sink;
