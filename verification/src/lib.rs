//! The core of a chat bot that serves one identity in many guilds: a mirror of the
//! platform's guild and voice state, the dispatch of text commands, one voice session
//! for each guild, and the retry rule for outbound messages. The library decides; the
//! program around it holds the connection and performs what a step asks for.

pub mod action;
pub mod bot;
pub mod delivery;
pub mod event;
pub mod laws;
pub mod mirror;
pub mod reply;
pub mod scan;
pub mod shortcuts;
pub mod text;
pub mod voice;
