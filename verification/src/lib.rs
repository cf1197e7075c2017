//! Verified domain logic for Twitch integrations: identifiers, secrets,
//! configuration, OAuth request shaping, Helix request validation, EventSub
//! webhook verification and replay protection, and chat commands.

pub mod text;
pub mod time;
pub mod error;
pub mod secret;
pub mod id;
pub mod config;
pub mod pagination;
pub mod rate_limit;
pub mod auth;
pub mod helix;
pub mod eventsub;
pub mod chat;
pub mod tasks;
