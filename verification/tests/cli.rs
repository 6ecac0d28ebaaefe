use sharpi::cli::{parse_command, Command, DaemonCommand, Missing};

fn parse(words: &[&str]) -> Command {
    let mut args = vec!["spi".to_string()];
    for w in words {
        args.push(w.to_string());
    }
    parse_command(&args)
}

#[test]
fn no_command_asks_for_help() {
    assert_eq!(parse_command(&vec![]), Command::Help);
    assert_eq!(parse(&[]), Command::Help);
    assert_eq!(parse(&["--help"]), Command::Help);
    assert_eq!(parse(&["-h"]), Command::Help);
}

#[test]
fn an_unknown_word_is_unknown() {
    assert_eq!(parse(&["frobnicate"]), Command::Unknown);
    assert_eq!(parse(&["Chat", "ls"]), Command::Unknown);
    assert_eq!(parse(&[""]), Command::Unknown);
}

#[test]
fn interactive_mode() {
    assert_eq!(parse(&["-i"]), Command::Interactive);
}

#[test]
fn init_and_its_options() {
    assert_eq!(parse(&["init"]), Command::Init { force: false });
    assert_eq!(parse(&["init", "--force"]), Command::Init { force: true });
    assert_eq!(parse(&["init", "help"]), Command::InitHelp);
    assert_eq!(parse(&["init", "--farce"]), Command::InitUnknown);
}

#[test]
fn daemon_and_its_commands() {
    assert_eq!(parse(&["daemon", "start"]), Command::Daemon(DaemonCommand::Start));
    assert_eq!(parse(&["daemon", "stop"]), Command::Daemon(DaemonCommand::Stop));
    assert_eq!(parse(&["daemon", "status"]), Command::Daemon(DaemonCommand::Status));
    assert_eq!(parse(&["daemon", "help"]), Command::Daemon(DaemonCommand::Help));
    assert_eq!(parse(&["daemon", "dance"]), Command::Daemon(DaemonCommand::Unknown));
    assert_eq!(parse(&["daemon"]), Command::Daemon(DaemonCommand::Unknown));
}

#[test]
fn chat_help_is_the_fallback() {
    assert_eq!(parse(&["chat"]), Command::ChatHelp);
    assert_eq!(parse(&["chat", "help"]), Command::ChatHelp);
    assert_eq!(parse(&["chat", "sing"]), Command::ChatHelp);
}

#[test]
fn chat_list_has_two_names() {
    assert_eq!(parse(&["chat", "ls"]), Command::ChatList);
    assert_eq!(parse(&["chat", "list"]), Command::ChatList);
}

#[test]
fn chat_new_takes_the_first_title() {
    assert_eq!(
        parse(&["chat", "new", "-t", "Trip"]),
        Command::ChatNew { title: "Trip".to_string() }
    );
    assert_eq!(
        parse(&["chat", "new", "x", "-t", "One", "-t", "Two"]),
        Command::ChatNew { title: "One".to_string() }
    );
    assert_eq!(
        parse(&["chat", "new", "-t", "-t", "Two"]),
        Command::ChatNew { title: "-t".to_string() }
    );
}

#[test]
fn chat_new_needs_a_title() {
    assert_eq!(parse(&["chat", "new"]), Command::Usage(Missing::Title));
    assert_eq!(parse(&["chat", "new", "-t"]), Command::Usage(Missing::Title));
    assert_eq!(parse(&["chat", "new", "Trip"]), Command::Usage(Missing::Title));
    assert_eq!(parse(&["chat", "new", "x", "-t"]), Command::Usage(Missing::Title));
}

#[test]
fn chat_show_takes_an_optional_identifier() {
    assert_eq!(parse(&["chat", "show"]), Command::ChatShow { id: None });
    assert_eq!(parse(&["chat", "show", "abc"]), Command::ChatShow { id: Some("abc".to_string()) });
}

#[test]
fn chat_send_takes_the_last_message() {
    assert_eq!(
        parse(&["chat", "send", "-m", "hi"]),
        Command::ChatSend { id: None, message: "hi".to_string() }
    );
    assert_eq!(
        parse(&["chat", "send", "abc", "-m", "hi"]),
        Command::ChatSend { id: Some("abc".to_string()), message: "hi".to_string() }
    );
    assert_eq!(
        parse(&["chat", "send", "-m", "one", "-m", "two"]),
        Command::ChatSend { id: None, message: "two".to_string() }
    );
    assert_eq!(
        parse(&["chat", "send", "-m", "-m", "two"]),
        Command::ChatSend { id: None, message: "two".to_string() }
    );
    assert_eq!(
        parse(&["chat", "send", "", "-m", "x"]),
        Command::ChatSend { id: Some(String::new()), message: "x".to_string() }
    );
}

#[test]
fn chat_send_needs_a_message() {
    assert_eq!(parse(&["chat", "send"]), Command::Usage(Missing::Message));
    assert_eq!(parse(&["chat", "send", "abc"]), Command::Usage(Missing::Message));
    assert_eq!(parse(&["chat", "send", "-m"]), Command::Usage(Missing::Message));
    assert_eq!(parse(&["chat", "send", "abc", "-m"]), Command::Usage(Missing::Message));
}

#[test]
fn chat_rm_and_use_need_an_identifier() {
    assert_eq!(parse(&["chat", "rm"]), Command::Usage(Missing::RemovedId));
    assert_eq!(parse(&["chat", "use"]), Command::Usage(Missing::UsedId));
    assert_eq!(parse(&["chat", "rm", "abc"]), Command::ChatRemove { id: "abc".to_string() });
    assert_eq!(parse(&["chat", "use", "abc", "x"]), Command::ChatUse { id: "abc".to_string() });
}
