//! A voice bot for a chat platform, without its wiring: the command router,
//! the followed user that commands set, the life of a voice session, and what
//! is logged for the voice events of a session. Everything here works on plain
//! values; the program around it talks to the gateway and the voice driver.

pub mod commands;
pub mod config;
pub mod handler;
pub mod target;
pub mod text;
pub mod voice;
