//! Short-link entry store and resolution engine.
//!
//! `api` holds the key-value variant (entries with optional expiry, resolution
//! gated by a liveness probe); `entries` and `routes` hold the flat-file
//! variant (one serialized collection, no expiry, no probe).
pub mod api;
pub mod config;
pub mod db;
pub mod entries;
pub mod ping;
pub mod resolution;
pub mod routes;
