use schnose::bot::Bot;
use schnose::events::message;
use schnose::events::ready::{
    handle, load_settings, parse_mode, registration_report, CommandScope, ConfigError, Mode,
};

fn s(t: &str) -> Option<String> {
    Some(t.to_string())
}

#[test]
fn mixed_case_trigger_is_answered() {
    assert_eq!(message::handle("Bing? are you there"), Some("chilling \u{1F976}".to_string()));
    assert_eq!(message::handle("BING?"), Some("chilling \u{1F976}".to_string()));
    assert_eq!(message::handle("bing?"), Some("chilling \u{1F976}".to_string()));
}

#[test]
fn trigger_must_be_a_prefix() {
    assert_eq!(message::handle("not bing? related"), None);
    assert_eq!(message::handle("bing"), None);
    assert_eq!(message::handle(""), None);
    assert!(message::starts_with_trigger("bing? x"));
    assert!(!message::starts_with_trigger("Bing? x"));
}

#[test]
fn modes_are_exact() {
    assert_eq!(parse_mode("DEV"), Some(Mode::Dev));
    assert_eq!(parse_mode("PROD"), Some(Mode::Prod));
    assert_eq!(parse_mode("dev"), None);
    assert_eq!(parse_mode("PRODUCTION"), None);
    assert_eq!(parse_mode(""), None);
}

#[test]
fn unknown_mode_stops_startup() {
    let r = load_settings(s("token"), s("STAGING"), s("1"));
    assert_eq!(r.err(), Some(ConfigError::InvalidMode));
}

#[test]
fn missing_settings_stop_startup() {
    assert_eq!(load_settings(None, s("PROD"), None).err(), Some(ConfigError::MissingToken));
    assert_eq!(load_settings(s("t"), None, None).err(), Some(ConfigError::MissingMode));
    assert_eq!(load_settings(s("t"), s("DEV"), None).err(), Some(ConfigError::MissingDevGuild));
    assert_eq!(load_settings(s("t"), s("DEV"), s("guild")).err(), Some(ConfigError::InvalidDevGuild));
}

#[test]
fn valid_settings_pick_the_scope() {
    let prod = load_settings(s("tok"), s("PROD"), s("junk")).ok().unwrap();
    assert_eq!(prod.token, "tok");
    assert_eq!(prod.mode, Mode::Prod);
    assert_eq!(prod.scope, CommandScope::Global);
    let dev = load_settings(s("tok"), s("DEV"), s("987654321")).ok().unwrap();
    assert_eq!(dev.mode, Mode::Dev);
    assert_eq!(dev.scope, CommandScope::Guild(987654321));
}

#[test]
fn ready_sets_status_and_declares_ping() {
    let dev = load_settings(s("tok"), s("DEV"), s("42")).ok().unwrap();
    let actions = handle(&dev);
    assert_eq!(actions.listening, "\u{2615} ~ Lofi Beats ~");
    assert_eq!(actions.commands.len(), 1);
    assert_eq!(actions.commands[0].name, "ping");
    assert_eq!(actions.scope, CommandScope::Guild(42));
}

#[test]
fn report_lists_registered_commands() {
    let names = vec!["ping".to_string(), "stats".to_string()];
    assert_eq!(
        registration_report(&names, Mode::Dev),
        "[MODE: DEV] Registered commands:\n> ping\n> stats"
    );
    assert_eq!(registration_report(&Vec::new(), Mode::Prod), "[MODE: PROD] No commands registered.");
}

#[test]
fn bot_subscribes_to_guild_messages() {
    let bot = Bot::new("secret".to_string());
    assert_eq!(bot.token, "secret");
    assert_eq!(bot.intents, 1 | (1 << 1) | (1 << 9) | (1 << 10) | (1 << 15));
    assert_eq!(bot.intents, 34307);
}
