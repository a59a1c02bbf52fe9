//! One slash-command interaction: typed access to its options, and the
//! reply state that decides which call delivers the response.

use vstd::prelude::*;
use crate::id::{parse_u64, parse_u64_spec};
use crate::commands::ping::ping_name;
use crate::options::{OptionMap, OptionValue, RawOption, options_model};
use crate::text::same_text;

verus! {

/// The string stored under `name`, if there is one and it is a string.
pub open spec fn string_option(m: Map<Seq<char>, OptionValue>, name: Seq<char>) -> Option<Seq<char>> {
    if m.contains_key(name) {
        match m[name] {
            OptionValue::String(s) => Some(s@),
            _ => None,
        }
    } else {
        None
    }
}

/// The integer stored under `name`, if there is one and it is an integer.
pub open spec fn int_option(m: Map<Seq<char>, OptionValue>, name: Seq<char>) -> Option<i64> {
    if m.contains_key(name) {
        match m[name] {
            OptionValue::Integer(n) => Some(n),
            _ => None,
        }
    } else {
        None
    }
}

/// The boolean stored under `name`, if there is one and it is a boolean.
pub open spec fn bool_option(m: Map<Seq<char>, OptionValue>, name: Seq<char>) -> Option<bool> {
    if m.contains_key(name) {
        match m[name] {
            OptionValue::Bool(b) => Some(b),
            _ => None,
        }
    } else {
        None
    }
}

/// The user identifier stored under `name`: a string that reads in full as
/// an unsigned 64-bit decimal.
pub open spec fn user_option(m: Map<Seq<char>, OptionValue>, name: Seq<char>) -> Option<u64> {
    match string_option(m, name) {
        Some(t) => parse_u64_spec(t),
        None => None,
    }
}

/// The text of an optional string.
pub open spec fn text_of(o: Option<String>) -> Option<Seq<char>> {
    match o {
        Some(s) => Some(s@),
        None => None,
    }
}

/// Where an interaction stands with respect to its response.
#[derive(Clone, Copy, Debug, PartialEq, Eq, Structural)]
pub enum ReplyState {
    /// Nothing has been sent yet.
    Fresh,
    /// The platform acknowledged that the response will come later.
    Deferred,
    /// The response has been sent.
    Replied,
}

/// The call that delivers a response.
#[derive(Clone, Copy, Debug, PartialEq, Eq, Structural)]
pub enum ReplyCall {
    /// The first response to an interaction that was not deferred.
    CreateInitialResponse,
    /// The edit of the placeholder left by a deferral.
    EditOriginalResponse,
}

/// A request that the reply state does not allow.
#[derive(Clone, Copy, Debug, PartialEq, Eq, Structural)]
pub enum ReplyError {
    /// The interaction was deferred already.
    AlreadyDeferred,
    /// The interaction was answered already.
    AlreadyReplied,
}

/// A response: plain text, or an embed of the transport's own shape.
pub enum InteractionResponseData<E> {
    Message(String),
    Embed(E),
}

/// A response together with the call that must deliver it.
pub struct Outbound<E> {
    pub call: ReplyCall,
    pub content: InteractionResponseData<E>,
}

/// Whether a deferral may be made in state `s`.
pub open spec fn defer_allowed(s: ReplyState) -> Result<(), ReplyError> {
    match s {
        ReplyState::Fresh => Ok(()),
        ReplyState::Deferred => Err(ReplyError::AlreadyDeferred),
        ReplyState::Replied => Err(ReplyError::AlreadyReplied),
    }
}

/// The call that a reply makes in state `s`.
pub open spec fn reply_call(s: ReplyState) -> Result<ReplyCall, ReplyError> {
    match s {
        ReplyState::Fresh => Ok(ReplyCall::CreateInitialResponse),
        ReplyState::Deferred => Ok(ReplyCall::EditOriginalResponse),
        ReplyState::Replied => Err(ReplyError::AlreadyReplied),
    }
}

/// The state after a deferral that the platform acknowledged.
pub open spec fn after_defer(s: ReplyState) -> ReplyState {
    match s {
        ReplyState::Fresh => ReplyState::Deferred,
        _ => s,
    }
}

/// The state after a reply that the platform accepted.
pub open spec fn after_reply(s: ReplyState) -> ReplyState {
    ReplyState::Replied
}

/// One slash-command interaction: the invoking user, the options, and the
/// reply state.
pub struct InteractionData {
    state: ReplyState,
    user: u64,
    opts: OptionMap,
}

impl InteractionData {
    /// The reply state.
    pub closed spec fn state_spec(&self) -> ReplyState {
        self.state
    }

    /// The identifier of the user who invoked the command.
    pub closed spec fn user_spec(&self) -> u64 {
        self.user
    }

    /// The options supplied with the command, by name.
    pub closed spec fn options_spec(&self) -> Map<Seq<char>, OptionValue> {
        self.opts@
    }

    /// The identifier of the user who invoked the command.
    pub fn user(&self) -> (r: u64)
        ensures
            r == self.user_spec(),
    {
        self.user
    }

    /// The options supplied with the command.
    pub fn opts(&self) -> (r: &OptionMap)
        ensures
            r@ == self.options_spec(),
    {
        &self.opts
    }

    /// Wraps a freshly received interaction: nothing has been sent for it.
    pub fn new(user: u64, raw: &Vec<RawOption>) -> (r: InteractionData)
        ensures
            r.state_spec() == ReplyState::Fresh,
            r.user_spec() == user,
            r.options_spec() == options_model(raw@),
    {
        InteractionData { state: ReplyState::Fresh, user, opts: OptionMap::from_raw(raw) }
    }

    /// The reply state.
    pub fn reply_state(&self) -> (r: ReplyState)
        ensures
            r == self.state_spec(),
    {
        self.state
    }

    /// Whether a deferral may be sent now: only before anything was sent.
    pub fn can_defer(&self) -> (r: Result<(), ReplyError>)
        ensures
            r == defer_allowed(self.state_spec()),
    {
        match self.state {
            ReplyState::Fresh => Ok(()),
            ReplyState::Deferred => Err(ReplyError::AlreadyDeferred),
            ReplyState::Replied => Err(ReplyError::AlreadyReplied),
        }
    }

    /// Records a deferral that the platform acknowledged. A failed
    /// acknowledgment is not recorded, so the state stays fresh.
    pub fn defer(&mut self) -> (r: Result<(), ReplyError>)
        ensures
            r == defer_allowed(old(self).state_spec()),
            final(self).state_spec() == after_defer(old(self).state_spec()),
            final(self).user_spec() == old(self).user_spec(),
            final(self).options_spec() == old(self).options_spec(),
    {
        let r = self.can_defer();
        if r.is_ok() {
            self.state = ReplyState::Deferred;
        }
        r
    }

    /// Picks the call that delivers `content`: the initial response while
    /// fresh, the edit of the original response once deferred.
    pub fn reply<E>(&self, content: InteractionResponseData<E>) -> (r: Result<Outbound<E>, ReplyError>)
        ensures
            match reply_call(self.state_spec()) {
                Ok(call) => r == Ok::<Outbound<E>, ReplyError>(Outbound { call, content }),
                Err(e) => r == Err::<Outbound<E>, ReplyError>(e),
            },
    {
        match self.state {
            ReplyState::Fresh => Ok(Outbound { call: ReplyCall::CreateInitialResponse, content }),
            ReplyState::Deferred => Ok(Outbound { call: ReplyCall::EditOriginalResponse, content }),
            ReplyState::Replied => Err(ReplyError::AlreadyReplied),
        }
    }

    /// Records a reply that the platform accepted; no second one may follow.
    pub fn mark_replied(&mut self) -> (r: Result<(), ReplyError>)
        ensures
            r == (match reply_call(old(self).state_spec()) {
                Ok(_) => Ok::<(), ReplyError>(()),
                Err(e) => Err(e),
            }),
            final(self).state_spec() == after_reply(old(self).state_spec()),
            final(self).user_spec() == old(self).user_spec(),
            final(self).options_spec() == old(self).options_spec(),
    {
        match self.state {
            ReplyState::Replied => Err(ReplyError::AlreadyReplied),
            _ => {
                self.state = ReplyState::Replied;
                Ok(())
            },
        }
    }

    /// The string option `name`; absent when missing or not a string.
    pub fn get_string(&self, name: &str) -> (r: Option<String>)
        ensures
            text_of(r) == string_option(self.options_spec(), name@),
    {
        match self.opts.get(name) {
            Some(OptionValue::String(s)) => Some(s.clone()),
            _ => None,
        }
    }

    /// The integer option `name`; absent when missing or not an integer.
    pub fn get_int(&self, name: &str) -> (r: Option<i64>)
        ensures
            r == int_option(self.options_spec(), name@),
    {
        match self.opts.get(name) {
            Some(OptionValue::Integer(n)) => Some(*n),
            _ => None,
        }
    }

    /// The boolean option `name`; absent when missing or not a boolean.
    pub fn get_bool(&self, name: &str) -> (r: Option<bool>)
        ensures
            r == bool_option(self.options_spec(), name@),
    {
        match self.opts.get(name) {
            Some(OptionValue::Bool(b)) => Some(*b),
            _ => None,
        }
    }

    /// The user option `name`: its string read as a decimal identifier;
    /// absent when missing, not a string, or not such a number.
    pub fn get_user(&self, name: &str) -> (r: Option<u64>)
        ensures
            r == user_option(self.options_spec(), name@),
    {
        match self.opts.get(name) {
            Some(OptionValue::String(s)) => parse_u64(s.as_str()),
            _ => None,
        }
    }
}

/// An option that the raw list never names is absent from the option map,
/// and every typed getter finds nothing under its name.
pub proof fn lemma_unlisted_option_is_empty(raw: Seq<RawOption>, name: Seq<char>)
    requires
        forall|i: int| 0 <= i < raw.len() ==> (#[trigger] raw[i]).name@ != name,
    ensures
        !options_model(raw).contains_key(name),
        string_option(options_model(raw), name) is None,
        int_option(options_model(raw), name) is None,
        bool_option(options_model(raw), name) is None,
        user_option(options_model(raw), name) is None,
    decreases raw.len(),
{
    if raw.len() > 0 {
        let p = raw.drop_last();
        assert forall|i: int| 0 <= i < p.len() implies (#[trigger] p[i]).name@ != name by {
            assert(p[i] == raw[i]);
        }
        lemma_unlisted_option_is_empty(p, name);
        assert(raw[raw.len() - 1].name@ != name);
    }
}

/// A getter finds nothing under a name whose value carries another tag
/// than the getter's: no value is coerced from one tag to another.
pub proof fn lemma_mismatched_tag_is_empty(raw: Seq<RawOption>, name: Seq<char>)
    ensures
        options_model(raw).contains_key(name) && !(options_model(raw)[name] is String)
            ==> string_option(options_model(raw), name) is None
            && user_option(options_model(raw), name) is None,
        options_model(raw).contains_key(name) && !(options_model(raw)[name] is Integer)
            ==> int_option(options_model(raw), name) is None,
        options_model(raw).contains_key(name) && !(options_model(raw)[name] is Bool)
            ==> bool_option(options_model(raw), name) is None,
{
}

/// A reply on an interaction that was never deferred (fresh, or answered
/// once already) never edits the original response; while fresh it creates
/// the initial response.
pub proof fn lemma_reply_without_defer_creates(s: ReplyState)
    requires
        s == ReplyState::Fresh || s == after_reply(ReplyState::Fresh),
    ensures
        reply_call(s) != Ok::<ReplyCall, ReplyError>(ReplyCall::EditOriginalResponse),
        s == ReplyState::Fresh ==> reply_call(s) == Ok::<ReplyCall, ReplyError>(
            ReplyCall::CreateInitialResponse,
        ),
{
}

/// Once a deferral has succeeded, a reply edits the original response; it
/// never creates a new one.
pub proof fn lemma_reply_after_defer_edits(s: ReplyState)
    requires
        defer_allowed(s) is Ok,
    ensures
        reply_call(after_defer(s)) == Ok::<ReplyCall, ReplyError>(ReplyCall::EditOriginalResponse),
{
}

/// The commands that the bot implements.
#[derive(Clone, Copy, Debug, PartialEq, Eq, Structural)]
pub enum Command {
    Ping,
}

/// What kind of interaction arrived.
pub enum InteractionKind {
    /// A slash command, by its declared name.
    ApplicationCommand(String),
    /// Any other kind of interaction.
    Other,
}

/// Why an interaction was not dispatched.
pub enum DispatchError {
    /// The interaction is not a slash command.
    UnsupportedInteraction,
    /// No command of this name is implemented.
    UnknownCommand(String),
}

/// The command that an interaction of kind `kind` goes to.
pub open spec fn route(kind: InteractionKind) -> Option<Command> {
    match kind {
        InteractionKind::ApplicationCommand(name) => if name@ == ping_name() {
            Some(Command::Ping)
        } else {
            None
        },
        InteractionKind::Other => None,
    }
}

/// Picks the command that handles an interaction: slash commands go by
/// name; anything else is refused.
pub fn handle(kind: &InteractionKind) -> (r: Result<Command, DispatchError>)
    ensures
        route(*kind) matches Some(c) ==> r == Ok::<Command, DispatchError>(c),
        route(*kind) is None ==> match *kind {
            InteractionKind::ApplicationCommand(name) => match r {
                Err(DispatchError::UnknownCommand(n)) => n@ == name@,
                _ => false,
            },
            InteractionKind::Other => r matches Err(DispatchError::UnsupportedInteraction),
        },
{
    match kind {
        InteractionKind::ApplicationCommand(name) => {
            proof {
                reveal_strlit("ping");
            }
            assert("ping"@ =~= ping_name());
            if same_text(name.as_str(), "ping") {
                Ok(Command::Ping)
            } else {
                Err(DispatchError::UnknownCommand(name.clone()))
            }
        },
        InteractionKind::Other => Err(DispatchError::UnsupportedInteraction),
    }
}

} // verus!
