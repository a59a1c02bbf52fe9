//! The settings read at startup, and what the bot does once connected:
//! set its status and declare its commands.

use vstd::prelude::*;
use crate::commands::{ping, CommandSpec};
use crate::id::{parse_u64, parse_u64_spec};
use crate::text::same_text;

verus! {

/// Where commands are declared: in one development guild, where changes
/// show at once, or globally.
#[derive(Clone, Copy, Debug, PartialEq, Eq, Structural)]
pub enum Mode {
    Dev,
    Prod,
}

/// The scope of the command declaration.
#[derive(Clone, Copy, Debug, PartialEq, Eq, Structural)]
pub enum CommandScope {
    /// In the guild with this identifier.
    Guild(u64),
    /// In every guild.
    Global,
}

/// A startup setting that is missing or malformed.
#[derive(Clone, Copy, Debug, PartialEq, Eq, Structural)]
pub enum ConfigError {
    MissingToken,
    MissingMode,
    InvalidMode,
    MissingDevGuild,
    InvalidDevGuild,
}

/// The mode that a setting names: `DEV` or `PROD`, and nothing else.
pub open spec fn mode_of(s: Seq<char>) -> Option<Mode> {
    if s == seq!['D', 'E', 'V'] {
        Some(Mode::Dev)
    } else if s == seq!['P', 'R', 'O', 'D'] {
        Some(Mode::Prod)
    } else {
        None
    }
}

/// The name of a mode, as the setting writes it.
pub open spec fn mode_name(m: Mode) -> Seq<char> {
    match m {
        Mode::Dev => seq!['D', 'E', 'V'],
        Mode::Prod => seq!['P', 'R', 'O', 'D'],
    }
}

/// Reads the mode setting.
pub fn parse_mode(s: &str) -> (r: Option<Mode>)
    ensures
        r == mode_of(s@),
{
    proof {
        reveal_strlit("DEV");
        reveal_strlit("PROD");
    }
    assert("DEV"@ =~= seq!['D', 'E', 'V']);
    assert("PROD"@ =~= seq!['P', 'R', 'O', 'D']);
    if same_text(s, "DEV") {
        Some(Mode::Dev)
    } else if same_text(s, "PROD") {
        Some(Mode::Prod)
    } else {
        None
    }
}

/// The settings that the bot runs with.
pub struct Settings {
    /// The authentication token.
    pub token: String,
    pub mode: Mode,
    /// Where commands are declared; a guild exactly in development mode.
    pub scope: CommandScope,
}

/// The outcome of reading the settings from the token, the mode and the
/// development guild, each as found or missing: the mode and the scope,
/// or the first setting at fault.
pub open spec fn settings_outcome(
    token: Option<Seq<char>>,
    mode: Option<Seq<char>>,
    guild: Option<Seq<char>>,
) -> Result<(Mode, CommandScope), ConfigError> {
    if token is None {
        Err(ConfigError::MissingToken)
    } else {
        match mode {
            None => Err(ConfigError::MissingMode),
            Some(m) => match mode_of(m) {
                None => Err(ConfigError::InvalidMode),
                Some(Mode::Prod) => Ok((Mode::Prod, CommandScope::Global)),
                Some(Mode::Dev) => match guild {
                    None => Err(ConfigError::MissingDevGuild),
                    Some(g) => match parse_u64_spec(g) {
                        None => Err(ConfigError::InvalidDevGuild),
                        Some(id) => Ok((Mode::Dev, CommandScope::Guild(id))),
                    },
                },
            },
        }
    }
}

/// The text of an optional string.
pub open spec fn opt_text(o: Option<String>) -> Option<Seq<char>> {
    match o {
        Some(s) => Some(s@),
        None => None,
    }
}

/// Reads the settings, before any connection is made. A mode other than
/// `DEV` and `PROD` is always refused.
pub fn load_settings(token: Option<String>, mode: Option<String>, dev_guild: Option<String>) -> (r:
    Result<Settings, ConfigError>)
    ensures
        match settings_outcome(opt_text(token), opt_text(mode), opt_text(dev_guild)) {
            Ok((m, scope)) => match r {
                Ok(s) => s.mode == m && s.scope == scope && opt_text(token) == Some(s.token@),
                Err(_) => false,
            },
            Err(e) => r matches Err(f) && f == e,
        },
        mode matches Some(m) && mode_of(m@) is None ==> r is Err,
{
    let token = match token {
        Some(t) => t,
        None => return Err(ConfigError::MissingToken),
    };
    let mode_text = match mode {
        Some(m) => m,
        None => return Err(ConfigError::MissingMode),
    };
    match parse_mode(mode_text.as_str()) {
        None => Err(ConfigError::InvalidMode),
        Some(Mode::Prod) => Ok(Settings { token, mode: Mode::Prod, scope: CommandScope::Global }),
        Some(Mode::Dev) => match dev_guild {
            None => Err(ConfigError::MissingDevGuild),
            Some(g) => match parse_u64(g.as_str()) {
                None => Err(ConfigError::InvalidDevGuild),
                Some(id) => Ok(Settings { token, mode: Mode::Dev, scope: CommandScope::Guild(id) }),
            },
        },
    }
}

/// The text that the bot shows as what it is listening to.
pub open spec fn status_text() -> Seq<char> {
    seq!['\u{2615}', ' ', '~', ' ', 'L', 'o', 'f', 'i', ' ', 'B', 'e', 'a', 't', 's', ' ', '~']
}

/// What the bot does once connected.
pub struct ReadyActions {
    /// The status it sets, as what it is listening to.
    pub listening: String,
    /// The commands it declares, replacing any declared before.
    pub commands: Vec<CommandSpec>,
    /// Where it declares them.
    pub scope: CommandScope,
}

/// The actions on connection: set the status, then declare the command
/// list in the scope of the settings.
pub fn handle(settings: &Settings) -> (r: ReadyActions)
    ensures
        r.listening@ == status_text(),
        r.commands@.len() == 1,
        r.commands@[0].name@ == ping::ping_name(),
        r.scope == settings.scope,
{
    proof {
        reveal_strlit("\u{2615} ~ Lofi Beats ~");
    }
    let listening = String::from_str("\u{2615} ~ Lofi Beats ~");
    assert(listening@ =~= status_text());
    let mut commands: Vec<CommandSpec> = Vec::new();
    commands.push(ping::register());
    ReadyActions { listening, commands, scope: settings.scope }
}

/// The names joined with `sep` between each two.
pub open spec fn joined(names: Seq<Seq<char>>, sep: Seq<char>) -> Seq<char>
    decreases names.len(),
{
    if names.len() == 0 {
        Seq::empty()
    } else if names.len() == 1 {
        names[0]
    } else {
        joined(names.drop_last(), sep) + sep + names.last()
    }
}

/// The operator's report on a declaration in mode `m` that registered
/// `names`: the mode, then the names one per line, or a note that there
/// are none.
pub open spec fn report_text(m: Mode, names: Seq<Seq<char>>) -> Seq<char> {
    seq!['[', 'M', 'O', 'D', 'E', ':', ' '] + mode_name(m) + seq![']', ' '] + if names.len() > 0 {
        "Registered commands:\n> "@ + joined(names, "\n> "@)
    } else {
        "No commands registered."@
    }
}

/// The operator's report on the commands that a declaration registered.
pub fn registration_report(names: &Vec<String>, m: Mode) -> (r: String)
    ensures
        r@ == report_text(m, names@.map_values(|s: String| s@)),
{
    let ghost views = names@.map_values(|s: String| s@);
    let mut out = String::from_str("[MODE: ");
    match m {
        Mode::Dev => out.append("DEV"),
        Mode::Prod => out.append("PROD"),
    }
    out.append("] ");
    proof {
        reveal_strlit("[MODE: ");
        reveal_strlit("DEV");
        reveal_strlit("PROD");
        reveal_strlit("] ");
    }
    let ghost head = out@;
    assert(head =~= seq!['[', 'M', 'O', 'D', 'E', ':', ' '] + mode_name(m) + seq![']', ' ']);
    if names.len() == 0 {
        out.append("No commands registered.");
        return out;
    }
    out.append("Registered commands:\n> ");
    let ghost lead = out@;
    out.append(names[0].as_str());
    assert(views.subrange(0, 1).len() == 1);
    assert(joined(views.subrange(0, 1), "\n> "@) == views[0]);
    let mut i: usize = 1;
    while i < names.len()
        invariant
            1 <= i <= names.len(),
            views == names@.map_values(|s: String| s@),
            out@ == lead + joined(views.subrange(0, i as int), "\n> "@),
        decreases names.len() - i,
    {
        let ghost before = out@;
        out.append("\n> ");
        out.append(names[i].as_str());
        let ghost q = views.subrange(0, i + 1);
        assert(q.drop_last() =~= views.subrange(0, i as int));
        assert(q.last() == names@[i as int]@);
        assert(out@ =~= before + "\n> "@ + names@[i as int]@);
        i = i + 1;
    }
    assert(views.subrange(0, names.len() as int) =~= views);
    assert(out@ =~= head + ("Registered commands:\n> "@ + joined(views, "\n> "@)));
    out
}

} // verus!
