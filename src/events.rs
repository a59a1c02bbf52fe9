//! The handlers for the platform's events.

pub mod message;
pub mod ready;
pub mod slash_command;
