//! The voice side of the bot: the events a voice session delivers, what is
//! logged for each, the sessions themselves and playback into them.

pub mod event;
pub mod playback;
pub mod receiver;
pub mod session;
