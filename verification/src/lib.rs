//! Relay between a Minecraft server's console log and a Discord channel.
//!
//! The verified part of the bridge: recognising the server's log lines,
//! tracking who is online, and turning chat in either direction into the
//! text that the other side receives.

pub mod pattern;
pub mod text;
pub mod players;
pub mod minecraft;
pub mod util;
pub mod discord;
pub mod log_parser;
