use schnose::commands::ping;
use schnose::events::slash_command::{
    handle, Command, DispatchError, InteractionData, InteractionKind, InteractionResponseData,
    ReplyCall, ReplyError, ReplyState,
};

fn fresh() -> InteractionData {
    InteractionData::new(1, &Vec::new())
}

#[test]
fn reply_without_defer_creates_initial_response() {
    let d = fresh();
    assert_eq!(d.reply_state(), ReplyState::Fresh);
    let out = d.reply::<()>(InteractionResponseData::Message("hi".to_string())).ok().unwrap();
    assert_eq!(out.call, ReplyCall::CreateInitialResponse);
    assert!(matches!(out.content, InteractionResponseData::Message(ref t) if t == "hi"));
}

#[test]
fn reply_after_defer_edits_original_response() {
    let mut d = fresh();
    assert_eq!(d.can_defer(), Ok(()));
    assert_eq!(d.defer(), Ok(()));
    assert_eq!(d.reply_state(), ReplyState::Deferred);
    let out = d.reply(InteractionResponseData::Embed(5u8)).ok().unwrap();
    assert_eq!(out.call, ReplyCall::EditOriginalResponse);
    assert!(matches!(out.content, InteractionResponseData::Embed(5)));
}

#[test]
fn second_defer_is_refused() {
    let mut d = fresh();
    assert_eq!(d.defer(), Ok(()));
    assert_eq!(d.can_defer(), Err(ReplyError::AlreadyDeferred));
    assert_eq!(d.defer(), Err(ReplyError::AlreadyDeferred));
    assert_eq!(d.reply_state(), ReplyState::Deferred);
}

#[test]
fn nothing_follows_a_reply() {
    let mut d = fresh();
    assert_eq!(d.mark_replied(), Ok(()));
    assert_eq!(d.reply_state(), ReplyState::Replied);
    assert_eq!(d.can_defer(), Err(ReplyError::AlreadyReplied));
    assert_eq!(d.defer(), Err(ReplyError::AlreadyReplied));
    assert!(matches!(
        d.reply::<()>(InteractionResponseData::Message("x".to_string())),
        Err(ReplyError::AlreadyReplied)
    ));
    assert_eq!(d.mark_replied(), Err(ReplyError::AlreadyReplied));
}

#[test]
fn ping_answers_with_pong() {
    let d = fresh();
    let out = ping::execute::<()>(&d).ok().unwrap();
    assert_eq!(out.call, ReplyCall::CreateInitialResponse);
    assert!(matches!(out.content, InteractionResponseData::Message(ref t) if t == "Pong!"));
    assert_eq!(ping::register().name, "ping");
}

#[test]
fn routing_by_command_name() {
    let ping = handle(&InteractionKind::ApplicationCommand("ping".to_string()));
    assert!(matches!(ping, Ok(Command::Ping)));
    let other = handle(&InteractionKind::ApplicationCommand("pong".to_string()));
    assert!(matches!(other, Err(DispatchError::UnknownCommand(ref n)) if n == "pong"));
    let upper = handle(&InteractionKind::ApplicationCommand("PING".to_string()));
    assert!(matches!(upper, Err(DispatchError::UnknownCommand(_))));
    assert!(matches!(handle(&InteractionKind::Other), Err(DispatchError::UnsupportedInteraction)));
}
