//! The command line: which command a list of arguments asks for.

use crate::text::text_of;
use vstd::prelude::*;

verus! {

/// What the daemon is asked to do.
#[derive(Clone, Copy, Debug, PartialEq, Eq, Structural)]
pub enum DaemonCommand {
    Start,
    Stop,
    Status,
    Help,
    Unknown,
}

/// An argument that a command needs and did not get.
#[derive(Clone, Copy, Debug, PartialEq, Eq, Structural)]
pub enum Missing {
    /// `chat new` without `-t` and a title.
    Title,
    /// `chat send` without `-m` and a message.
    Message,
    /// `chat rm` without an identifier.
    RemovedId,
    /// `chat use` without an identifier.
    UsedId,
}

/// What a command line asks for.
#[allow(inconsistent_fields)]
#[derive(Clone, Debug, PartialEq, Eq)]
pub enum Command {
    /// Write the default configuration; `force` overwrites one that is there.
    Init { force: bool },
    InitHelp,
    InitUnknown,
    ChatList,
    ChatNew { title: String },
    /// Show the conversation under `id`, or the active one.
    ChatShow { id: Option<String> },
    /// Send `message` in the conversation under `id`, or in the active one.
    ChatSend { id: Option<String>, message: String },
    ChatRemove { id: String },
    ChatUse { id: String },
    ChatHelp,
    Daemon(DaemonCommand),
    Interactive,
    Help,
    /// A first argument that names no command.
    Unknown,
    /// A command without an argument it needs.
    Usage(Missing),
}

/// [`Command`] as a mathematical value.
#[allow(inconsistent_fields)]
pub enum CommandView {
    Init { force: bool },
    InitHelp,
    InitUnknown,
    ChatList,
    ChatNew { title: Seq<char> },
    ChatShow { id: Option<Seq<char>> },
    ChatSend { id: Option<Seq<char>>, message: Seq<char> },
    ChatRemove { id: Seq<char> },
    ChatUse { id: Seq<char> },
    ChatHelp,
    Daemon(DaemonCommand),
    Interactive,
    Help,
    Unknown,
    Usage(Missing),
}

impl View for Command {
    type V = CommandView;

    open spec fn view(&self) -> CommandView {
        match self {
            Command::Init { force } => CommandView::Init { force: *force },
            Command::InitHelp => CommandView::InitHelp,
            Command::InitUnknown => CommandView::InitUnknown,
            Command::ChatList => CommandView::ChatList,
            Command::ChatNew { title } => CommandView::ChatNew { title: title@ },
            Command::ChatShow { id } => CommandView::ChatShow { id: text_of(*id) },
            Command::ChatSend { id, message } => CommandView::ChatSend {
                id: text_of(*id),
                message: message@,
            },
            Command::ChatRemove { id } => CommandView::ChatRemove { id: id@ },
            Command::ChatUse { id } => CommandView::ChatUse { id: id@ },
            Command::ChatHelp => CommandView::ChatHelp,
            Command::Daemon(d) => CommandView::Daemon(*d),
            Command::Interactive => CommandView::Interactive,
            Command::Help => CommandView::Help,
            Command::Unknown => CommandView::Unknown,
            Command::Usage(m) => CommandView::Usage(*m),
        }
    }
}

/// The arguments as texts.
pub open spec fn texts(args: Seq<String>) -> Seq<Seq<char>> {
    args.map_values(|s: String| s@)
}

/// Where the options of a subcommand begin: after the program's name, the
/// command and the subcommand.
pub open spec fn options_start() -> int {
    3
}

/// `flag` stands at `i` among the options and a value follows it.
pub open spec fn option_at(args: Seq<Seq<char>>, flag: Seq<char>, i: int) -> bool {
    options_start() <= i && i + 1 < args.len() && args[i] == flag
}

/// The first place at or after `from` where `flag` stands with a value.
pub open spec fn first_option(args: Seq<Seq<char>>, flag: Seq<char>, from: int) -> Option<int>
    decreases args.len() - from,
{
    if from + 1 >= args.len() {
        None
    } else if option_at(args, flag, from) {
        Some(from)
    } else {
        first_option(args, flag, from + 1)
    }
}

/// The last place before `upto` where `flag` stands with a value.
pub open spec fn last_option(args: Seq<Seq<char>>, flag: Seq<char>, upto: int) -> Option<int>
    decreases upto,
{
    if upto <= options_start() {
        None
    } else if option_at(args, flag, upto - 1) {
        Some(upto - 1)
    } else {
        last_option(args, flag, upto - 1)
    }
}

/// The argument at `i`, if there is one.
pub open spec fn argument(args: Seq<Seq<char>>, i: int) -> Option<Seq<char>> {
    if 0 <= i < args.len() {
        Some(args[i])
    } else {
        None
    }
}

/// What `init` and what follows it ask for.
pub open spec fn init_command(args: Seq<Seq<char>>) -> CommandView {
    match argument(args, 2) {
        None => CommandView::Init { force: false },
        Some(sub) => if sub == "--force"@ {
            CommandView::Init { force: true }
        } else if sub == "help"@ {
            CommandView::InitHelp
        } else {
            CommandView::InitUnknown
        },
    }
}

/// What `daemon` and what follows it ask for.
pub open spec fn daemon_command(args: Seq<Seq<char>>) -> DaemonCommand {
    match argument(args, 2) {
        None => DaemonCommand::Unknown,
        Some(sub) => if sub == "start"@ {
            DaemonCommand::Start
        } else if sub == "stop"@ {
            DaemonCommand::Stop
        } else if sub == "status"@ {
            DaemonCommand::Status
        } else if sub == "help"@ {
            DaemonCommand::Help
        } else {
            DaemonCommand::Unknown
        },
    }
}

/// The conversation that `chat send` names: the argument after `send`,
/// unless it begins with a hyphen.
pub open spec fn send_target(args: Seq<Seq<char>>) -> Option<Seq<char>> {
    match argument(args, 3) {
        Some(a) => if a.len() > 0 && a[0] == '-' {
            None
        } else {
            Some(a)
        },
        None => None,
    }
}

/// What `chat` and what follows it ask for. The title of a new conversation
/// follows the first `-t`, the message to send the last `-m`.
pub open spec fn chat_command(args: Seq<Seq<char>>) -> CommandView {
    match argument(args, 2) {
        None => CommandView::ChatHelp,
        Some(sub) => if sub == "ls"@ || sub == "list"@ {
            CommandView::ChatList
        } else if sub == "new"@ {
            match first_option(args, "-t"@, options_start()) {
                Some(i) => CommandView::ChatNew { title: args[i + 1] },
                None => CommandView::Usage(Missing::Title),
            }
        } else if sub == "show"@ {
            CommandView::ChatShow { id: argument(args, 3) }
        } else if sub == "send"@ {
            match last_option(args, "-m"@, args.len() as int) {
                Some(i) => CommandView::ChatSend { id: send_target(args), message: args[i + 1] },
                None => CommandView::Usage(Missing::Message),
            }
        } else if sub == "rm"@ {
            match argument(args, 3) {
                Some(id) => CommandView::ChatRemove { id },
                None => CommandView::Usage(Missing::RemovedId),
            }
        } else if sub == "use"@ {
            match argument(args, 3) {
                Some(id) => CommandView::ChatUse { id },
                None => CommandView::Usage(Missing::UsedId),
            }
        } else {
            CommandView::ChatHelp
        },
    }
}

/// What a command line asks for. The first argument is the program's name.
pub open spec fn command_of(args: Seq<Seq<char>>) -> CommandView {
    match argument(args, 1) {
        None => CommandView::Help,
        Some(command) => if command == "init"@ {
            init_command(args)
        } else if command == "chat"@ {
            chat_command(args)
        } else if command == "daemon"@ {
            CommandView::Daemon(daemon_command(args))
        } else if command == "-i"@ {
            CommandView::Interactive
        } else if command == "--help"@ || command == "-h"@ {
            CommandView::Help
        } else {
            CommandView::Unknown
        },
    }
}

/// Whether `a` reads `word`.
fn reads(a: &String, word: &str) -> (b: bool)
    ensures
        b == (a@ == word@),
{
    *a == word.to_owned()
}

/// The argument at `i`, if there is one.
fn argument_at(args: &Vec<String>, i: usize) -> (r: Option<&String>)
    ensures
        match r {
            Some(a) => argument(texts(args@), i as int) == Some(a@),
            None => argument(texts(args@), i as int) is None,
        },
{
    if i < args.len() {
        Some(&args[i])
    } else {
        None
    }
}

/// Where `flag` first stands among the options with a value after it.
fn find_first(args: &Vec<String>, flag: &str) -> (r: Option<usize>)
    ensures
        match r {
            Some(i) => first_option(texts(args@), flag@, options_start()) == Some(i as int) && i
                + 1 < args.len(),
            None => first_option(texts(args@), flag@, options_start()) is None,
        },
{
    let mut i: usize = 3;
    while i < args.len() && i + 1 < args.len()
        invariant
            3 <= i,
            first_option(texts(args@), flag@, options_start()) == first_option(
                texts(args@),
                flag@,
                i as int,
            ),
        decreases args.len() - i,
    {
        if reads(&args[i], flag) {
            return Some(i);
        }
        i += 1;
    }
    None
}

/// Where `flag` last stands among the options with a value after it.
fn find_last(args: &Vec<String>, flag: &str) -> (r: Option<usize>)
    ensures
        match r {
            Some(i) => last_option(texts(args@), flag@, args@.len() as int) == Some(i as int) && i
                + 1 < args.len(),
            None => last_option(texts(args@), flag@, args@.len() as int) is None,
        },
{
    let mut found: Option<usize> = None;
    let mut i: usize = 3;
    if args.len() <= 3 {
        return None;
    }
    while i < args.len()
        invariant
            3 <= i <= args.len(),
            match found {
                Some(k) => last_option(texts(args@), flag@, i as int) == Some(k as int) && k + 1
                    < args.len(),
                None => last_option(texts(args@), flag@, i as int) is None,
            },
        decreases args.len() - i,
    {
        if i + 1 < args.len() && reads(&args[i], flag) {
            found = Some(i);
        }
        i += 1;
    }
    found
}

/// Reads `init` and what follows it.
fn parse_init(args: &Vec<String>) -> (c: Command)
    ensures
        c@ == init_command(texts(args@)),
{
    match argument_at(args, 2) {
        None => Command::Init { force: false },
        Some(sub) => if reads(sub, "--force") {
            Command::Init { force: true }
        } else if reads(sub, "help") {
            Command::InitHelp
        } else {
            Command::InitUnknown
        },
    }
}

/// Reads `daemon` and what follows it.
fn parse_daemon(args: &Vec<String>) -> (d: DaemonCommand)
    ensures
        d == daemon_command(texts(args@)),
{
    match argument_at(args, 2) {
        None => DaemonCommand::Unknown,
        Some(sub) => if reads(sub, "start") {
            DaemonCommand::Start
        } else if reads(sub, "stop") {
            DaemonCommand::Stop
        } else if reads(sub, "status") {
            DaemonCommand::Status
        } else if reads(sub, "help") {
            DaemonCommand::Help
        } else {
            DaemonCommand::Unknown
        },
    }
}

/// The conversation that `chat send` names.
fn parse_send_target(args: &Vec<String>) -> (r: Option<String>)
    ensures
        text_of(r) == send_target(texts(args@)),
{
    match argument_at(args, 3) {
        Some(a) => if a.as_str().unicode_len() > 0 && a.as_str().get_char(0) == '-' {
            None
        } else {
            Some(a.clone())
        },
        None => None,
    }
}

/// Reads `chat` and what follows it.
fn parse_chat(args: &Vec<String>) -> (c: Command)
    ensures
        c@ == chat_command(texts(args@)),
{
    let sub = match argument_at(args, 2) {
        None => { return Command::ChatHelp; },
        Some(sub) => sub,
    };
    if reads(sub, "ls") || reads(sub, "list") {
        Command::ChatList
    } else if reads(sub, "new") {
        match find_first(args, "-t") {
            Some(i) => Command::ChatNew { title: args[i + 1].clone() },
            None => Command::Usage(Missing::Title),
        }
    } else if reads(sub, "show") {
        let id = match argument_at(args, 3) {
            Some(a) => Some(a.clone()),
            None => None,
        };
        Command::ChatShow { id }
    } else if reads(sub, "send") {
        match find_last(args, "-m") {
            Some(i) => Command::ChatSend {
                id: parse_send_target(args),
                message: args[i + 1].clone(),
            },
            None => Command::Usage(Missing::Message),
        }
    } else if reads(sub, "rm") {
        match argument_at(args, 3) {
            Some(id) => Command::ChatRemove { id: id.clone() },
            None => Command::Usage(Missing::RemovedId),
        }
    } else if reads(sub, "use") {
        match argument_at(args, 3) {
            Some(id) => Command::ChatUse { id: id.clone() },
            None => Command::Usage(Missing::UsedId),
        }
    } else {
        Command::ChatHelp
    }
}

/// Reads a command line, the program's name first.
pub fn parse_command(args: &Vec<String>) -> (c: Command)
    ensures
        c@ == command_of(texts(args@)),
{
    let command = match argument_at(args, 1) {
        None => { return Command::Help; },
        Some(command) => command,
    };
    if reads(command, "init") {
        parse_init(args)
    } else if reads(command, "chat") {
        parse_chat(args)
    } else if reads(command, "daemon") {
        Command::Daemon(parse_daemon(args))
    } else if reads(command, "-i") {
        Command::Interactive
    } else if reads(command, "--help") || reads(command, "-h") {
        Command::Help
    } else {
        Command::Unknown
    }
}

} // verus!
