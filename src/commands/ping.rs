//! The `ping` command: answers with a fixed pong.

use vstd::prelude::*;
use crate::commands::CommandSpec;
use crate::events::slash_command::{InteractionData, InteractionResponseData, Outbound, ReplyError, reply_call};

verus! {

/// The name under which the command is declared.
pub open spec fn ping_name() -> Seq<char> {
    seq!['p', 'i', 'n', 'g']
}

/// The text of the answer.
pub open spec fn pong_text() -> Seq<char> {
    seq!['P', 'o', 'n', 'g', '!']
}

/// The response is the text `t`.
pub open spec fn is_text<E>(c: InteractionResponseData<E>, t: Seq<char>) -> bool {
    match c {
        InteractionResponseData::Message(s) => s@ == t,
        InteractionResponseData::Embed(_) => false,
    }
}

/// The declaration of the command.
pub fn register() -> (r: CommandSpec)
    ensures
        r.name@ == ping_name(),
{
    proof {
        reveal_strlit("ping");
    }
    let name = String::from_str("ping");
    assert(name@ =~= ping_name());
    CommandSpec { name, description: String::from_str("Checks whether the bot is listening.") }
}

/// Answers the interaction with the pong text, by the call that its reply
/// state calls for.
pub fn execute<E>(data: &InteractionData) -> (r: Result<Outbound<E>, ReplyError>)
    ensures
        match reply_call(data.state_spec()) {
            Ok(call) => match r {
                Ok(o) => o.call == call && is_text(o.content, pong_text()),
                Err(_) => false,
            },
            Err(e) => r == Err::<Outbound<E>, ReplyError>(e),
        },
{
    proof {
        reveal_strlit("Pong!");
    }
    let text = String::from_str("Pong!");
    assert(text@ =~= pong_text());
    data.reply(InteractionResponseData::Message(text))
}

} // verus!
