//! Request-parameter resolution for a library/archive browsing API.
//!
//! The crate turns raw query-string key/value pairs into a typed search
//! request (free-text query, page number, sort field, sort direction),
//! applying the documented defaults whenever a parameter is missing or
//! malformed, and builds the pagination and lookup response envelopes.

pub mod pages;
pub mod params;
pub mod respond;
pub mod text;
