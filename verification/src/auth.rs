//! OAuth lifecycle: authorization flows, token types and storage, token
//! validation policy, and the shaping and interpretation of Twitch OAuth
//! requests and responses.

pub mod error;
pub mod flow;
pub mod manager;
pub mod token;
pub mod table;
pub mod store;
pub mod api;
pub mod client;
pub mod provider;
