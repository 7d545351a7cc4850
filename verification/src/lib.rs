//! Decision logic of a Stream Deck / OpenAction plugin that drives the
//! Discord desktop client over its local RPC channel.

pub mod json;
pub mod settings;
pub mod actions;
pub mod connection;
pub mod reconnect;
