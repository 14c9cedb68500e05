//! Command-line core for a cloud registry of apps and devices.
//!
//! The crate builds the authenticated REST requests that manage "app" and
//! "device" resources, resolves which operation a (verb, resource) pair of
//! command tokens selects, decides when a bearer token must be refreshed,
//! and drives the fetch/edit/submit flow for interactive edits. All network
//! and process I/O is left to the embedding binary; this library only
//! computes, and every function here is verified against its contract.

pub mod apps;
pub mod arguments;
pub mod config;
pub mod devices;
pub mod editflow;
pub mod errors;
pub mod openid;
pub mod payload;
pub mod request;
pub mod router;
pub mod util;
