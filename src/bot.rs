//! The bot's identity: its token and the events it subscribes to.

use vstd::prelude::*;

verus! {

/// Guild creation, updates and removal.
pub const GUILDS: u64 = 1;
/// Members joining, changing and leaving.
pub const GUILD_MEMBERS: u64 = 1 << 1;
/// Messages in guild channels.
pub const GUILD_MESSAGES: u64 = 1 << 9;
/// Reactions to messages in guild channels.
pub const GUILD_MESSAGE_REACTIONS: u64 = 1 << 10;
/// The text of messages.
pub const MESSAGE_CONTENT: u64 = 1 << 15;

/// The event subscriptions that the bot asks for.
pub open spec fn bot_intents() -> u64 {
    GUILDS | GUILD_MEMBERS | GUILD_MESSAGES | GUILD_MESSAGE_REACTIONS | MESSAGE_CONTENT
}

/// The bot's identity, shared read-only by every handler.
pub struct Bot {
    /// The authentication token.
    pub token: String,
    /// The gateway intents, one bit per event category.
    pub intents: u64,
}

impl Bot {
    /// The bot with token `token`, subscribed to guilds, their members,
    /// their messages and reactions, and the messages' text.
    pub fn new(token: String) -> (r: Bot)
        ensures
            r.token == token,
            r.intents == bot_intents(),
    {
        Bot {
            token,
            intents: GUILDS | GUILD_MEMBERS | GUILD_MESSAGES | GUILD_MESSAGE_REACTIONS | MESSAGE_CONTENT,
        }
    }
}

} // verus!
