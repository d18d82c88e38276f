//! The rules of a bot that guards chat groups against one kind of scam
//! screenshot: what is known of the bot's and the users' rights in each chat,
//! how an image is judged, and what is done about a sender.

pub mod cache;
pub mod config;
pub mod error;
pub mod handler;
pub mod momo;
pub mod text;
