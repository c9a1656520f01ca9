use a2a_cli::{Cli, CliError, Command, ReplPlan, TokenSource, ready_label, require_auth_args};

fn cli() -> Cli {
    Cli {
        command: None,
        endpoint: None,
        token: None,
        appid: None,
        tenant_id: "common".to_string(),
        authority: None,
        scopes: vec!["https://graph.microsoft.com/.default".to_string()],
        redirect_uri: None,
        account: None,
        stream: false,
        verbosity: 1,
        show_token: false,
    }
}

#[test]
fn authority_defaults_to_tenant_url() {
    let c = cli();
    assert_eq!(c.authority(), "https://login.microsoftonline.com/common");
    let mut d = cli();
    d.tenant_id = "organizations".to_string();
    assert_eq!(d.authority(), "https://login.microsoftonline.com/organizations");
}

#[test]
fn explicit_authority_overrides_tenant() {
    let mut c = cli();
    c.tenant_id = "ignored".to_string();
    c.authority = Some("https://login.example.com/t1".to_string());
    assert_eq!(c.authority(), "https://login.example.com/t1");
}

#[test]
fn app_id_is_required_for_login() {
    assert_eq!(require_auth_args(""), Err(CliError::MissingAppId));
    assert_eq!(require_auth_args("a668445b"), Ok(()));
    let mut c = cli();
    assert_eq!(c.app_id(), "");
    c.appid = Some("abc".to_string());
    assert_eq!(c.app_id(), "abc");
}

#[test]
fn repl_needs_endpoint_first() {
    let c = cli();
    assert_eq!(c.repl_plan(""), Err(CliError::MissingEndpoint));
    assert_eq!(c.repl_plan("app"), Err(CliError::MissingEndpoint));
}

#[test]
fn repl_uses_given_token_without_app_id() {
    let mut c = cli();
    c.endpoint = Some("https://agent.example.com/a2a".to_string());
    c.token = Some("eyJ.tok.en".to_string());
    assert_eq!(
        c.repl_plan(""),
        Ok(ReplPlan {
            endpoint: "https://agent.example.com/a2a".to_string(),
            token: TokenSource::Given("eyJ.tok.en".to_string()),
        })
    );
}

#[test]
fn repl_logs_in_with_app_id() {
    let mut c = cli();
    c.endpoint = Some("https://agent.example.com/a2a".to_string());
    assert_eq!(c.repl_plan(""), Err(CliError::MissingAppId));
    assert_eq!(
        c.repl_plan("app"),
        Ok(ReplPlan { endpoint: "https://agent.example.com/a2a".to_string(), token: TokenSource::Login })
    );
}

#[test]
fn messages_block_unless_streaming() {
    let mut c = cli();
    let s = c.message_settings();
    assert!(s.blocking);
    assert_eq!(s.accepted_output_modes, vec!["text/plain".to_string()]);
    c.stream = true;
    assert!(!c.message_settings().blocking);
}

#[test]
fn banner_names_mode_and_endpoint() {
    assert_eq!(ready_label(true, "http://x"), "READY — Streaming — http://x");
    assert_eq!(ready_label(false, "http://x"), "READY — Sync — http://x");
}

#[test]
fn error_messages() {
    assert_eq!(CliError::MissingAppId.message(), "--appid is required (or set A2A_APP_ID)");
    assert_eq!(CliError::MissingEndpoint.message(), "--endpoint is required (or set A2A_ENDPOINT)");
    assert_eq!(Command::Login, Command::Login);
}
