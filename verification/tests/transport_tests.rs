use hyrcon_client::error::{ErrorKind, RconError};
use hyrcon_client::transport::{
    extract_error, is_block_terminator, parse_command_block, split_lines, strip_cr_str,
    strip_line_ending, AuthMode, AuthOutcome, CommandOutcome, Greeting, HyrconSession,
    ResponseStatus,
};

fn lines(items: &[&str]) -> Vec<String> {
    items.iter().map(|s| s.to_string()).collect()
}

#[test]
fn greeting_parses_required_auth() {
    let greeting = Greeting::hyrcon_from_lines(vec![
        "HYRCON READY".to_string(),
        "AUTH REQUIRED".to_string(),
    ])
    .expect("parse greeting");

    assert!(greeting.requires_auth());
    assert_eq!(greeting.banner(), "HYRCON READY");
}

#[test]
fn extract_error_splits_last_line() {
    let (payload, error) = extract_error(vec![
        "line 1".to_string(),
        "ERROR Something went wrong".to_string(),
    ]);

    assert_eq!(payload, vec!["line 1"]);
    assert_eq!(error, Some("Something went wrong".to_string()));
}

#[test]
fn split_lines_handles_crlf() {
    let result = split_lines("foo\r\nbar\nbaz\r\n");
    assert_eq!(result, vec!["foo", "bar", "baz"]);
}

#[test]
fn extract_error_keeps_plain_blocks() {
    let (payload, error) = extract_error(lines(&["alpha", "beta"]));
    assert_eq!(payload, vec!["alpha", "beta"]);
    assert_eq!(error, None);
}

#[test]
fn split_lines_edge_cases() {
    assert_eq!(split_lines(""), Vec::<String>::new());
    assert_eq!(split_lines("\n"), vec![""]);
    assert_eq!(split_lines("a\n\nb"), vec!["a", "", "b"]);
    assert_eq!(split_lines("tail"), vec!["tail"]);
    assert_eq!(split_lines("many\r\r\nend\r"), vec!["many", "end"]);
}

#[test]
fn strip_helpers_normalise_lines() {
    assert_eq!(strip_line_ending("hello\r\n"), "hello");
    assert_eq!(strip_line_ending("hello\n"), "hello");
    assert_eq!(strip_line_ending("hello\r"), "hello\r");
    assert_eq!(strip_line_ending("hello"), "hello");
    assert_eq!(strip_cr_str("hello\r\r"), "hello");
    assert_eq!(strip_cr_str("hello"), "hello");
}

#[test]
fn greeting_rejects_bad_blocks() {
    let short = Greeting::hyrcon_from_lines(lines(&["HYRCON READY"]));
    assert_eq!(short.unwrap_err(), RconError::GreetingMissingAuthMode);

    let banner = Greeting::hyrcon_from_lines(lines(&["HELLO", "AUTH REQUIRED"]));
    assert_eq!(banner.unwrap_err(), RconError::UnexpectedBanner("HELLO".to_string()));

    let mode = Greeting::hyrcon_from_lines(lines(&["HYRCON READY", "AUTH MAYBE"]));
    assert_eq!(mode.unwrap_err(), RconError::UnknownAuthMode("AUTH MAYBE".to_string()));
}

#[test]
fn greeting_accepts_optional_auth() {
    let greeting =
        Greeting::from_lines(lines(&["HYRCON READY", "AUTH OPTIONAL", "welcome"])).unwrap();
    assert!(!greeting.requires_auth());
    assert!(matches!(greeting.auth_mode(), AuthMode::Optional));
}

#[test]
fn source_greeting_is_synthesized() {
    let greeting = Greeting::source_default();
    assert_eq!(greeting.banner(), "SOURCE RCON READY");
    assert!(greeting.requires_auth());
}

#[test]
fn command_block_statuses() {
    let ok = parse_command_block(lines(&["OK", "one", "two"])).unwrap();
    match ok {
        CommandOutcome::Response(resp) => {
            assert_eq!(resp.status, ResponseStatus::Success);
            assert_eq!(resp.payload, vec!["one", "two"]);
            assert_eq!(resp.error, None);
        }
        CommandOutcome::Bye => panic!("expected a response"),
    }

    let err = parse_command_block(lines(&["ERR", "ERROR boom"])).unwrap();
    match err {
        CommandOutcome::Response(resp) => {
            assert_eq!(resp.status, ResponseStatus::Error);
            assert_eq!(resp.payload, Vec::<String>::new());
            assert_eq!(resp.error, Some("boom".to_string()));
        }
        CommandOutcome::Bye => panic!("expected a response"),
    }

    assert!(matches!(parse_command_block(lines(&["BYE"])).unwrap(), CommandOutcome::Bye));

    assert_eq!(
        parse_command_block(lines(&[])).unwrap_err(),
        RconError::EmptyBlock
    );
    assert_eq!(
        parse_command_block(lines(&["WAT", "x"])).unwrap_err(),
        RconError::UnexpectedStatus("WAT".to_string())
    );
}

#[test]
fn hyrcon_end_to_end() {
    let greeting =
        Greeting::hyrcon_from_lines(lines(&["HYRCON READY", "AUTH REQUIRED"])).unwrap();
    assert!(greeting.requires_auth());

    let mut session = HyrconSession::new();
    assert!(!session.is_closed());

    let auth_line = session.begin_auth("secret").unwrap();
    assert_eq!(auth_line, "AUTH secret");
    let outcome = HyrconSession::finish_auth(&lines(&["AUTH OK"])).unwrap();
    assert_eq!(outcome, AuthOutcome::Success);

    session.begin_command("status").unwrap();
    let reply = session.finish_command(lines(&["OK", "uptime: 42"])).unwrap();
    match reply {
        CommandOutcome::Response(resp) => {
            assert_eq!(resp.status, ResponseStatus::Success);
            assert_eq!(resp.payload, vec!["uptime: 42"]);
            assert_eq!(resp.error, None);
        }
        CommandOutcome::Bye => panic!("expected a response"),
    }
    assert!(!session.is_closed());
}

#[test]
fn hyrcon_auth_replies() {
    assert_eq!(
        HyrconSession::finish_auth(&lines(&["AUTH FAIL"])).unwrap(),
        AuthOutcome::Failure
    );
    assert_eq!(
        HyrconSession::finish_auth(&lines(&[])).unwrap_err(),
        RconError::EmptyAuthBlock
    );
    assert_eq!(
        HyrconSession::finish_auth(&lines(&["NOPE"])).unwrap_err(),
        RconError::UnexpectedAuthReply("NOPE".to_string())
    );
}

#[test]
fn hyrcon_rejects_bad_input() {
    let session = HyrconSession::new();
    assert_eq!(
        session.begin_auth("pass\nword").unwrap_err(),
        RconError::NewlineInPassword
    );
    assert_eq!(session.begin_command("  \t ").unwrap_err(), RconError::EmptyCommand);
    assert_eq!(
        session.begin_command("say\nhi").unwrap_err(),
        RconError::NewlineInCommand
    );
}

#[test]
fn block_terminator_is_a_lone_dot() {
    assert!(is_block_terminator("."));
    assert!(!is_block_terminator(".."));
    assert!(!is_block_terminator(""));
    assert!(!is_block_terminator(". "));
}

#[test]
fn hyrcon_closed_session_rejects_auth() {
    let mut session = HyrconSession::new();
    session.finish_command(lines(&["BYE"])).unwrap();
    assert!(session.is_closed());
    assert_eq!(session.begin_auth("secret").unwrap_err(), RconError::SessionClosed);
}

#[test]
fn hyrcon_bye_closes_session() {
    let mut session = HyrconSession::new();
    let reply = session.finish_command(lines(&["BYE"])).unwrap();
    assert!(matches!(reply, CommandOutcome::Bye));
    assert!(session.is_closed());
    assert_eq!(
        session.begin_command("status").unwrap_err(),
        RconError::SessionClosed
    );
}

#[test]
fn hyrcon_quit_handling() {
    let mut session = HyrconSession::new();
    let bye = session.finish_command(lines(&["BYE"])).unwrap();
    assert!(session.finish_quit(bye).is_ok());
    assert!(session.is_closed());

    let mut other = HyrconSession::new();
    let reply = other.finish_command(lines(&["OK"])).unwrap();
    assert_eq!(
        other.finish_quit(reply).unwrap_err(),
        RconError::UnexpectedQuitResponse
    );
    assert!(other.is_closed());
}

#[test]
fn error_kinds_classify() {
    assert_eq!(RconError::SessionClosed.kind(), ErrorKind::SessionClosed);
    assert_eq!(RconError::AuthInvalidated.kind(), ErrorKind::DeauthInvalidated);
    assert_eq!(RconError::EmptyCommand.kind(), ErrorKind::ValidationFailure);
    assert_eq!(RconError::NewlineInPassword.kind(), ErrorKind::ValidationFailure);
    assert_eq!(RconError::EmptyBlock.kind(), ErrorKind::ProtocolViolation);
    assert_eq!(RconError::InvalidUtf8.kind(), ErrorKind::ProtocolViolation);
}
