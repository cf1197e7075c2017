//! EventSub runtime support: typed notification models, replay protection,
//! webhook verification, and WebSocket session configuration.

pub mod error;
pub mod model;
pub mod replay;
pub mod webhook;
pub mod client;
pub mod websocket;
