use a2a_cli::{A2ASessionClient, ClientError, InputAction, classify_input, eq_ignore_ascii_case, trim};

#[test]
fn quit_and_exit_in_any_case() {
    assert_eq!(classify_input("quit\n"), InputAction::Quit);
    assert_eq!(classify_input("  EXIT \r\n"), InputAction::Quit);
    assert_eq!(classify_input("QuIt"), InputAction::Quit);
    assert_eq!(classify_input("quitting"), InputAction::Send("quitting".to_string()));
}

#[test]
fn blank_lines_are_skipped() {
    assert_eq!(classify_input("\n"), InputAction::Skip);
    assert_eq!(classify_input(" \t \u{3000}"), InputAction::Skip);
    assert_eq!(classify_input(""), InputAction::Skip);
}

#[test]
fn messages_are_trimmed() {
    assert_eq!(classify_input("  hello world \n"), InputAction::Send("hello world".to_string()));
    assert_eq!(trim("\u{2003}hi\u{a0}"), "hi");
    assert_eq!(trim("a b"), "a b");
}

#[test]
fn ascii_case_only() {
    assert!(eq_ignore_ascii_case("Exit", "eXIT"));
    assert!(!eq_ignore_ascii_case("exité", "exitÉ"));
    assert!(!eq_ignore_ascii_case("exi", "exit"));
}

#[test]
fn session_client_keeps_and_updates_token() {
    let mut c = A2ASessionClient::new("http://localhost:8080/a2a", "tok-1").unwrap();
    assert_eq!(c.token(), "tok-1");
    assert_eq!(c.endpoint(), "http://localhost:8080/a2a");
    c.update_token("tok-2");
    assert_eq!(c.token(), "tok-2");
    assert!(!c.adopt_fresh_token(None));
    assert_eq!(c.token(), "tok-2");
    assert!(!c.adopt_fresh_token(Some("tok-2")));
    assert!(c.adopt_fresh_token(Some("tok-3")));
    assert_eq!(c.token(), "tok-3");
    assert_eq!(c.endpoint(), "http://localhost:8080/a2a");
}

#[test]
fn session_client_rejects_bad_endpoint() {
    match A2ASessionClient::new("not a url", "t") {
        Err(ClientError::Endpoint(_)) => {}
        other => panic!("unexpected: {:?}", other.map(|c| c.token().to_string())),
    }
}
