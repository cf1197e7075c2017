//! Typed Helix API support: request validation, query construction, response
//! and error interpretation, and client configuration.

pub mod error;
pub mod client;
pub mod users;
pub mod transport;
pub mod endpoints;
