//! A small chat-bot core: the options of a slash-command interaction, the
//! reply state of an interaction, message triggers, command routing and the
//! startup settings of the bot.

pub mod bot;
pub mod commands;
pub mod events;
pub mod id;
pub mod options;
pub mod text;
