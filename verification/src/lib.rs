//! Core logic of a single-channel chat session agent.
//!
//! The crate models the session lifecycle of a chat bot: parsing operator
//! console commands, reacting to inbound chat events, and coordinating
//! shutdown between the two concurrent loops. All decisions are pure
//! functions over plain values; the surrounding I/O (the IRC connection,
//! the console, credential storage) lives outside the library and feeds
//! events in as data.

pub mod chatters;
pub mod command;
pub mod console;
pub mod router;
pub mod session;
pub mod text;
