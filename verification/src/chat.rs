//! Transport-agnostic chat: normalized chat events, message-send commands,
//! client transport selection, and the IRC compatibility transport.

pub mod client;
pub mod command;
pub mod error;
pub mod event;
pub mod irc;
