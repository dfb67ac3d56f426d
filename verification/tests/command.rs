use ghostmesh::command::{parse_line, StdinCommand};

#[test]
fn slash_commands_are_recognised() {
    assert_eq!(parse_line("/peers"), StdinCommand::Peers);
    assert_eq!(parse_line("/peers now"), StdinCommand::Peers);
    assert_eq!(parse_line("/show"), StdinCommand::Show);
    assert_eq!(parse_line("/help"), StdinCommand::Unknown);
    assert_eq!(parse_line("/"), StdinCommand::Unknown);
    assert_eq!(parse_line("/logx hello"), StdinCommand::Unknown);
}

#[test]
fn log_takes_the_rest_of_the_line() {
    assert_eq!(parse_line("/log hello"), StdinCommand::Log("hello".to_string()));
    assert_eq!(
        parse_line("/log   hello   big\tworld  "),
        StdinCommand::Log("hello big world".to_string())
    );
    assert_eq!(parse_line("/log"), StdinCommand::LogUsage);
    assert_eq!(parse_line("/log   "), StdinCommand::LogUsage);
}

#[test]
fn dm_takes_a_peer_and_a_message() {
    assert_eq!(
        parse_line("/dm 12D3KooW secret"),
        StdinCommand::Dm { to: "12D3KooW".to_string(), content: "secret".to_string() }
    );
    assert_eq!(
        parse_line("/dm peer two  words"),
        StdinCommand::Dm { to: "peer".to_string(), content: "two words".to_string() }
    );
    assert_eq!(parse_line("/dm"), StdinCommand::DmUsage);
    assert_eq!(parse_line("/dm peer"), StdinCommand::DmUsage);
}

#[test]
fn other_lines_are_chat_verbatim() {
    assert_eq!(parse_line("hello  there "), StdinCommand::Chat("hello  there ".to_string()));
    assert_eq!(parse_line(""), StdinCommand::Chat(String::new()));
    assert_eq!(parse_line(" /log x"), StdinCommand::Chat(" /log x".to_string()));
}
