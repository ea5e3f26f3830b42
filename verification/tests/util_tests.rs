use hyrcon_client::util::{is_exit_command, join_words, sanitize};

#[test]
fn sanitize_removes_trailing_newlines() {
    assert_eq!(sanitize("say hello\n"), Some("say hello".to_string()));
    assert_eq!(sanitize("say hello\r\n"), Some("say hello".to_string()));
    assert_eq!(sanitize("say hello\r\n\n"), Some("say hello".to_string()));
}

#[test]
fn sanitize_rejects_blank_input() {
    assert_eq!(sanitize("   \n"), None);
    assert_eq!(sanitize("\n\n"), None);
}

#[test]
fn exit_detection_is_case_insensitive() {
    assert!(is_exit_command("quit"));
    assert!(is_exit_command("QUIT"));
    assert!(is_exit_command(" Exit \n"));
    assert!(!is_exit_command("quiet"));
}

#[test]
fn sanitize_is_idempotent() {
    let once = sanitize("\r\nstatus all\n\n").unwrap();
    assert_eq!(once, "status all");
    let twice = sanitize(&once).unwrap();
    assert_eq!(twice, once);
}

#[test]
fn sanitize_keeps_inner_whitespace() {
    assert_eq!(sanitize("\n  say  hi  \r\n"), Some("  say  hi  ".to_string()));
    assert_eq!(sanitize(""), None);
}

#[test]
fn join_words_single_spaces() {
    let words: Vec<String> = vec!["say".to_string(), "hello".to_string(), "world".to_string()];
    assert_eq!(join_words(&words), "say hello world");
    let one: Vec<String> = vec!["status".to_string()];
    assert_eq!(join_words(&one), "status");
    let none: Vec<String> = vec![];
    assert_eq!(join_words(&none), "");
}
