use a2a_cli::{AuthManager, AuthPhase, AuthStep, SessionStore, TokenResult};

fn session(client: &str, expires_at: i64, refresh: Option<&str>) -> SessionStore {
    SessionStore {
        client_id: client.to_string(),
        access_token: "cached-at".to_string(),
        refresh_token: refresh.map(|s| s.to_string()),
        expires_at,
        account: Some("old@contoso.com".to_string()),
    }
}

fn manager(cached: Option<SessionStore>) -> AuthManager {
    AuthManager::new("client", &["https://graph.microsoft.com/.default"], cached)
}

#[test]
fn cached_session_of_other_client_is_dropped() {
    let m = AuthManager::new("client", &[], Some(session("other", 10_000, None)));
    assert!(m.session().is_none());
    assert_eq!(m.cached_account(), None);
    let m = manager(Some(session("client", 10_000, None)));
    assert!(m.session().is_some());
    assert_eq!(m.cached_account(), Some("old@contoso.com"));
    assert_eq!(m.client_id(), "client");
}

#[test]
fn fresh_cached_token_is_used_first() {
    let m = manager(Some(session("client", 1061, Some("rt"))));
    assert_eq!(m.get_token(AuthPhase::Start, 1000), AuthStep::UseToken("cached-at".to_string()));
    assert_eq!(m.get_token(AuthPhase::Start, 1001), AuthStep::TryBroker);
}

#[test]
fn login_order_broker_refresh_device_code() {
    let m = manager(Some(session("client", 0, Some("rt"))));
    assert_eq!(m.get_token(AuthPhase::Start, 1000), AuthStep::TryBroker);
    assert_eq!(m.get_token(AuthPhase::BrokerFailed, 1000), AuthStep::TryRefresh("rt".to_string()));
    assert_eq!(m.get_token(AuthPhase::RefreshFailed, 1000), AuthStep::DeviceCode);
    let n = manager(None);
    assert_eq!(n.get_token(AuthPhase::Start, 1000), AuthStep::TryBroker);
    assert_eq!(n.get_token(AuthPhase::BrokerFailed, 1000), AuthStep::DeviceCode);
}

#[test]
fn refresh_before_request_uses_five_minute_margin() {
    let m = manager(Some(session("client", 1301, None)));
    assert_eq!(m.ensure_fresh(AuthPhase::Start, 1000), AuthStep::UseToken("cached-at".to_string()));
    let m = manager(Some(session("client", 1300, None)));
    assert_eq!(m.ensure_fresh(AuthPhase::Start, 1000), AuthStep::UseToken("cached-at".to_string()));
    let m = manager(Some(session("client", 1299, None)));
    assert_eq!(m.ensure_fresh(AuthPhase::Start, 1000), AuthStep::TryBroker);
    assert_eq!(m.get_token(AuthPhase::Start, 1000), AuthStep::UseToken("cached-at".to_string()));
}

#[test]
fn refresh_before_request_falls_back_to_cached_token() {
    let m = manager(Some(session("client", 0, Some("rt"))));
    assert_eq!(m.ensure_fresh(AuthPhase::BrokerFailed, 1000), AuthStep::TryRefresh("rt".to_string()));
    assert_eq!(m.ensure_fresh(AuthPhase::RefreshFailed, 1000), AuthStep::UseToken("cached-at".to_string()));
    let m = manager(Some(session("client", 0, None)));
    assert_eq!(m.ensure_fresh(AuthPhase::BrokerFailed, 1000), AuthStep::UseToken("cached-at".to_string()));
    let n = manager(None);
    assert_eq!(n.ensure_fresh(AuthPhase::Start, 1000), AuthStep::TryBroker);
    assert_eq!(n.ensure_fresh(AuthPhase::BrokerFailed, 1000), AuthStep::NoToken);
    assert_eq!(n.ensure_fresh(AuthPhase::RefreshFailed, 1000), AuthStep::NoToken);
}

#[test]
fn silent_refresh_never_asks_for_device_code() {
    for cached in [None, Some(session("client", 0, None)), Some(session("client", 0, Some("rt")))] {
        let m = manager(cached);
        for phase in [AuthPhase::Start, AuthPhase::BrokerFailed, AuthPhase::RefreshFailed] {
            assert_ne!(m.ensure_fresh(phase, 1000), AuthStep::DeviceCode);
            assert_ne!(m.get_token(phase, 1000), AuthStep::NoToken);
        }
    }
}

#[test]
fn offline_access_added_once() {
    let m = manager(None);
    assert_eq!(
        m.scopes_with_offline(),
        vec!["https://graph.microsoft.com/.default".to_string(), "offline_access".to_string()]
    );
    let m = AuthManager::new("client", &["offline_access", "User.Read"], None);
    assert_eq!(m.scopes_with_offline(), vec!["offline_access".to_string(), "User.Read".to_string()]);
    let m = AuthManager::new("client", &[], None);
    assert_eq!(m.scopes_with_offline(), vec!["offline_access".to_string()]);
}

#[test]
fn unrotated_refresh_token_is_kept() {
    let m = manager(Some(session("client", 0, Some("old-rt"))));
    let result = TokenResult {
        access_token: "new-at".to_string(),
        refresh_token: None,
        expires_on: 5000,
        username: None,
    };
    let s = m.session_from(&result, Some("old-rt"));
    assert_eq!(s.refresh_token, Some("old-rt".to_string()));
    assert_eq!(s.account, Some("old@contoso.com".to_string()));
    assert_eq!(s.client_id, "client");
    assert_eq!(s.access_token, "new-at");
    assert_eq!(s.expires_at, 5000);
}

#[test]
fn rotated_refresh_token_and_account_win() {
    let m = manager(Some(session("client", 0, Some("old-rt"))));
    let result = TokenResult {
        access_token: "new-at".to_string(),
        refresh_token: Some("new-rt".to_string()),
        expires_on: 5000,
        username: Some("new@contoso.com".to_string()),
    };
    let s = m.session_from(&result, Some("old-rt"));
    assert_eq!(s.refresh_token, Some("new-rt".to_string()));
    assert_eq!(s.account, Some("new@contoso.com".to_string()));
    let none = manager(None).session_from(
        &TokenResult { access_token: "a".to_string(), refresh_token: None, expires_on: 1, username: None },
        None,
    );
    assert_eq!(none.refresh_token, None);
    assert_eq!(none.account, None);
}

#[test]
fn stored_token_is_served_next() {
    let mut m = manager(None);
    let result = TokenResult {
        access_token: "new-at".to_string(),
        refresh_token: Some("rt".to_string()),
        expires_on: 5000,
        username: Some("u@contoso.com".to_string()),
    };
    let s = m.session_from(&result, None);
    m.adopt_session(s);
    assert_eq!(m.get_token(AuthPhase::Start, 4939), AuthStep::UseToken("new-at".to_string()));
    assert_eq!(m.ensure_fresh(AuthPhase::Start, 4700), AuthStep::UseToken("new-at".to_string()));
    assert_eq!(m.get_token(AuthPhase::Start, 4940), AuthStep::TryBroker);
    assert_eq!(m.get_token(AuthPhase::BrokerFailed, 4940), AuthStep::TryRefresh("rt".to_string()));
    assert_eq!(m.cached_account(), Some("u@contoso.com"));
}
