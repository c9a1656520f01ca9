use vstd::prelude::*;
use vstd::string::*;

use crate::session::{expiring_within, SessionStore};
use crate::text::{copy_opt_string, copy_string, str_eq, strings_view};

verus! {

/// What an identity provider hands back after a successful token request,
/// as plain values.
#[derive(Debug, Clone)]
pub struct TokenResult {
    pub access_token: String,
    /// A new refresh token, when the server rotated it.
    pub refresh_token: Option<String>,
    /// Unix timestamp (seconds) at which the access token expires.
    pub expires_on: i64,
    /// The signed-in user name, when the provider reports an account.
    pub username: Option<String>,
}

/// How far a token request has come: which attempts have failed so far.
#[derive(Clone, Copy, Debug, PartialEq, Eq, Structural)]
pub enum AuthPhase {
    /// Nothing has been tried yet.
    Start,
    /// The broker is not available, or was tried and failed.
    BrokerFailed,
    /// The refresh token was tried and failed.
    RefreshFailed,
}

/// The next thing to do to obtain a token.
#[derive(Debug, PartialEq, Eq)]
pub enum AuthStep {
    /// Done: use this access token.
    UseToken(String),
    /// Ask the platform broker for a token, if one is available.
    TryBroker,
    /// Redeem this refresh token.
    TryRefresh(String),
    /// Run the interactive device code flow.
    DeviceCode,
    /// No token can be had without logging in.
    NoToken,
}

/// Seconds of validity a cached token must still have to be used as is
/// when a token is asked for: more than 60, that is at least 61.
pub open spec fn login_margin() -> int {
    61
}

/// Seconds of validity a cached token must still have to be used as is
/// before a request: at least 300.
pub open spec fn request_margin() -> int {
    300
}

/// The session holds a token with at least `margin` seconds left at `now`.
pub open spec fn cached_fresh(session: Option<SessionStore>, margin: int, now: int) -> bool {
    match session {
        Some(s) => !expiring_within(s.expires_at as int, margin, now),
        None => false,
    }
}

/// The refresh token of the session, if any.
pub open spec fn refresh_token_of(session: Option<SessionStore>) -> Option<String> {
    match session {
        Some(s) => s.refresh_token,
        None => None,
    }
}

/// Obtaining a token interactively: after the broker, the refresh token,
/// else the device code flow.
pub open spec fn login_after_broker(session: Option<SessionStore>) -> AuthStep {
    match refresh_token_of(session) {
        Some(rt) => AuthStep::TryRefresh(rt),
        None => AuthStep::DeviceCode,
    }
}

/// The last resort before a request: whatever token is cached.
pub open spec fn last_resort(session: Option<SessionStore>) -> AuthStep {
    match session {
        Some(s) => AuthStep::UseToken(s.access_token),
        None => AuthStep::NoToken,
    }
}

/// Refreshing silently before a request: after the broker, the refresh
/// token, else the cached token.
pub open spec fn silent_after_broker(session: Option<SessionStore>) -> AuthStep {
    match refresh_token_of(session) {
        Some(rt) => AuthStep::TryRefresh(rt),
        None => last_resort(session),
    }
}

/// The policy for obtaining a token: the cached one if it has more than
/// 60 seconds left, then the broker, then the refresh token, then the device
/// code flow.
pub open spec fn login_plan(session: Option<SessionStore>, phase: AuthPhase, now: int) -> AuthStep {
    match phase {
        AuthPhase::Start => if cached_fresh(session, login_margin(), now) {
            AuthStep::UseToken(session->0.access_token)
        } else {
            AuthStep::TryBroker
        },
        AuthPhase::BrokerFailed => login_after_broker(session),
        AuthPhase::RefreshFailed => AuthStep::DeviceCode,
    }
}

/// The policy for keeping a token fresh before a request: the cached one
/// if it has at least five minutes left, then the broker, then the
/// refresh token, then whatever is cached.
pub open spec fn refresh_plan(session: Option<SessionStore>, phase: AuthPhase, now: int) -> AuthStep {
    match phase {
        AuthPhase::Start => if cached_fresh(session, request_margin(), now) {
            AuthStep::UseToken(session->0.access_token)
        } else {
            AuthStep::TryBroker
        },
        AuthPhase::BrokerFailed => silent_after_broker(session),
        AuthPhase::RefreshFailed => last_resort(session),
    }
}

/// The scope that asks for a refresh token.
pub open spec fn offline_scope() -> Seq<char> {
    "offline_access"@
}

/// The scopes with `offline_access` added at the end unless present.
pub open spec fn with_offline(scopes: Seq<Seq<char>>) -> Seq<Seq<char>> {
    if scopes.contains(offline_scope()) {
        scopes
    } else {
        scopes.push(offline_scope())
    }
}

pub open spec fn opt_str_view(o: Option<&str>) -> Option<Seq<char>> {
    match o {
        Some(s) => Some(s@),
        None => None,
    }
}

pub open spec fn opt_string_view(o: Option<String>) -> Option<Seq<char>> {
    match o {
        Some(s) => Some(s@),
        None => None,
    }
}

/// The token bookkeeping of a client application: its id, the scopes it
/// asks for and the session it holds.
pub struct AuthManager {
    client_id: String,
    scopes: Vec<String>,
    session: Option<SessionStore>,
}

impl AuthManager {
    pub closed spec fn client_id_view(&self) -> Seq<char> {
        self.client_id@
    }

    pub closed spec fn scopes_view(&self) -> Seq<Seq<char>> {
        strings_view(self.scopes@)
    }

    pub closed spec fn session_view(&self) -> Option<SessionStore> {
        self.session
    }

    /// A manager for `client_id` asking for `scopes`. A cached session is
    /// kept only when it was made for the same client id.
    pub fn new(client_id: &str, scopes: &[&str], cached: Option<SessionStore>) -> (r: Self)
        ensures
            r.client_id_view() == client_id@,
            r.scopes_view() == scopes@.map_values(|s: &str| s@),
            r.session_view() == match cached {
                Some(s) => if s.client_id@ == client_id@ {
                    Some(s)
                } else {
                    None
                },
                None => None,
            },
    {
        let mut owned: Vec<String> = Vec::new();
        let mut i: usize = 0;
        while i < scopes.len()
            invariant
                i <= scopes@.len(),
                strings_view(owned@) == scopes@.take(i as int).map_values(|s: &str| s@),
            decreases scopes@.len() - i,
        {
            let s: String = scopes[i].to_owned();
            let ghost before = owned@;
            owned.push(s);
            proof {
                assert(scopes@.take(i + 1) == scopes@.take(i as int).push(scopes@[i as int]));
                assert(strings_view(owned@) =~= strings_view(before).push(scopes@[i as int]@));
                assert(scopes@.take(i + 1).map_values(|s: &str| s@) =~= scopes@.take(
                    i as int,
                ).map_values(|s: &str| s@).push(scopes@[i as int]@));
            }
            i = i + 1;
        }
        proof {
            assert(scopes@.take(scopes@.len() as int) == scopes@);
        }
        let session = match cached {
            Some(s) => if str_eq(s.client_id.as_str(), client_id) {
                Some(s)
            } else {
                None
            },
            None => None,
        };
        AuthManager { client_id: client_id.to_owned(), scopes: owned, session }
    }

    /// The session currently held.
    pub fn session(&self) -> (r: &Option<SessionStore>)
        ensures
            *r == self.session_view(),
    {
        &self.session
    }

    /// The client id.
    pub fn client_id(&self) -> (r: &str)
        ensures
            r@ == self.client_id_view(),
    {
        self.client_id.as_str()
    }

    /// The scopes asked for.
    pub fn scopes(&self) -> (r: Vec<String>)
        ensures
            strings_view(r@) == self.scopes_view(),
    {
        let mut out: Vec<String> = Vec::new();
        let mut i: usize = 0;
        while i < self.scopes.len()
            invariant
                i <= self.scopes@.len(),
                strings_view(out@) == strings_view(self.scopes@).take(i as int),
            decreases self.scopes@.len() - i,
        {
            out.push(copy_string(&self.scopes[i]));
            proof {
                let sv = strings_view(self.scopes@);
                assert(sv.take(i + 1) == sv.take(i as int).push(sv[i as int]));
            }
            i = i + 1;
        }
        proof {
            let sv = strings_view(self.scopes@);
            assert(sv.take(sv.len() as int) == sv);
        }
        out
    }

    /// The account of the cached session, if any.
    pub fn cached_account(&self) -> (r: Option<&str>)
        ensures
            opt_str_view(r) == match self.session_view() {
                Some(s) => opt_string_view(s.account),
                None => None,
            },
    {
        match &self.session {
            Some(s) => match &s.account {
                Some(a) => Some(a.as_str()),
                None => None,
            },
            None => None,
        }
    }

    /// The scopes, with `offline_access` added unless already present, so
    /// that the provider hands out a refresh token.
    pub fn scopes_with_offline(&self) -> (r: Vec<String>)
        ensures
            strings_view(r@) == with_offline(self.scopes_view()),
    {
        let offline = "offline_access";
        let mut out: Vec<String> = Vec::new();
        let mut found = false;
        let mut i: usize = 0;
        while i < self.scopes.len()
            invariant
                i <= self.scopes@.len(),
                strings_view(out@) == strings_view(self.scopes@).take(i as int),
                found == strings_view(self.scopes@).take(i as int).contains(offline@),
            decreases self.scopes@.len() - i,
        {
            let s = &self.scopes[i];
            let same = str_eq(s.as_str(), offline);
            out.push(copy_string(s));
            proof {
                let sv = strings_view(self.scopes@);
                assert(sv.take(i + 1) == sv.take(i as int).push(sv[i as int]));
                if same {
                    assert(sv.take(i + 1)[i as int] == offline@);
                }
                if sv.take(i + 1).contains(offline@) {
                    let k = choose|k: int| 0 <= k < sv.take(i + 1).len() && #[trigger] sv.take(i + 1)[k] == offline@;
                    if k < i {
                        assert(sv.take(i as int)[k] == offline@);
                    }
                }
            }
            found = found || same;
            i = i + 1;
        }
        proof {
            let sv = strings_view(self.scopes@);
            assert(sv.take(sv.len() as int) == sv);
            reveal_strlit("offline_access");
        }
        if !found {
            out.push(String::from_str(offline));
        }
        out
    }

    /// The session that a successful token request leaves: the new tokens
    /// and expiry; the refresh token of the result, else `fallback_rt`
    /// (the one just redeemed, when the server did not rotate it); the
    /// account of the result, else the one already known.
    pub fn session_from(&self, result: &TokenResult, fallback_rt: Option<&str>) -> (r: SessionStore)
        ensures
            r.client_id@ == self.client_id_view(),
            r.access_token == result.access_token,
            r.expires_at == result.expires_on,
            opt_string_view(r.refresh_token) == match result.refresh_token {
                Some(t) => Some(t@),
                None => opt_str_view(fallback_rt),
            },
            r.account == match result.username {
                Some(u) => Some(u),
                None => match self.session_view() {
                    Some(s) => s.account,
                    None => None,
                },
            },
    {
        let account = match &result.username {
            Some(u) => Some(copy_string(u)),
            None => match &self.session {
                Some(s) => copy_opt_string(&s.account),
                None => None,
            },
        };
        let refresh_token = match &result.refresh_token {
            Some(t) => Some(copy_string(t)),
            None => match fallback_rt {
                Some(f) => Some(f.to_owned()),
                None => None,
            },
        };
        SessionStore {
            client_id: copy_string(&self.client_id),
            access_token: copy_string(&result.access_token),
            refresh_token,
            expires_at: result.expires_on,
            account,
        }
    }

    /// Hold `session` from now on (after it has been saved).
    pub fn adopt_session(&mut self, session: SessionStore)
        ensures
            final(self).session_view() == Some(session),
            final(self).client_id_view() == old(self).client_id_view(),
            final(self).scopes_view() == old(self).scopes_view(),
    {
        self.session = Some(session);
    }

    fn cached_token_if_fresh(&self, margin: i64, now: i64) -> (r: Option<String>)
        ensures
            match r {
                Some(t) => cached_fresh(self.session_view(), margin as int, now as int)
                    && t == self.session_view()->0.access_token,
                None => !cached_fresh(self.session_view(), margin as int, now as int),
            },
    {
        match &self.session {
            Some(s) => if !s.expires_within_at(margin, now) {
                Some(copy_string(&s.access_token))
            } else {
                None
            },
            None => None,
        }
    }

    fn refresh_token(&self) -> (r: Option<String>)
        ensures
            r == refresh_token_of(self.session_view()),
    {
        match &self.session {
            Some(s) => copy_opt_string(&s.refresh_token),
            None => None,
        }
    }

    fn cached_token(&self) -> (r: AuthStep)
        ensures
            r == last_resort(self.session_view()),
    {
        match &self.session {
            Some(s) => AuthStep::UseToken(copy_string(&s.access_token)),
            None => AuthStep::NoToken,
        }
    }

    /// The next step towards a valid access token (the login policy):
    /// the cached token while it has more than 60 seconds left, else the
    /// broker (when one is available), then the refresh token, then the device
    /// code flow.
    pub fn get_token(&self, phase: AuthPhase, now: i64) -> (r: AuthStep)
        ensures
            r == login_plan(self.session_view(), phase, now as int),
    {
        match phase {
            AuthPhase::Start => {
                match self.cached_token_if_fresh(61, now) {
                    Some(t) => AuthStep::UseToken(t),
                    None => AuthStep::TryBroker,
                }
            },
            AuthPhase::BrokerFailed => match self.refresh_token() {
                Some(rt) => AuthStep::TryRefresh(rt),
                None => AuthStep::DeviceCode,
            },
            AuthPhase::RefreshFailed => AuthStep::DeviceCode,
        }
    }

    /// The next step towards a fresh token before a request: the cached
    /// token while it has at least 300 seconds left, else the broker (when
    /// one is available), then the refresh token, then whatever token is cached.
    pub fn ensure_fresh(&self, phase: AuthPhase, now: i64) -> (r: AuthStep)
        ensures
            r == refresh_plan(self.session_view(), phase, now as int),
    {
        match phase {
            AuthPhase::Start => {
                match self.cached_token_if_fresh(300, now) {
                    Some(t) => AuthStep::UseToken(t),
                    None => AuthStep::TryBroker,
                }
            },
            AuthPhase::BrokerFailed => match self.refresh_token() {
                Some(rt) => AuthStep::TryRefresh(rt),
                None => self.cached_token(),
            },
            AuthPhase::RefreshFailed => self.cached_token(),
        }
    }
}


// ── Laws of the token policy ────────────────────────────────────────────

/// A cached token with more than 60 seconds left is served as is: asking
/// for a token then needs no broker, refresh or login.
pub proof fn law_fresh_cache_is_served(session: Option<SessionStore>, now: int)
    requires
        session is Some,
        !expiring_within(session->0.expires_at as int, login_margin(), now),
    ensures
        login_plan(session, AuthPhase::Start, now) == AuthStep::UseToken(
            session->0.access_token,
        ),
{
}

/// The sources are tried in a fixed order, each at most once: the broker
/// only first, the refresh token only before it has failed, and it is the
/// session's own refresh token.
pub proof fn law_sources_in_order(
    session: Option<SessionStore>,
    phase: AuthPhase,
    now: int,
)
    ensures
        login_plan(session, phase, now) is TryBroker ==> phase == AuthPhase::Start,
        refresh_plan(session, phase, now) is TryBroker ==> phase == AuthPhase::Start,
        login_plan(session, phase, now) matches AuthStep::TryRefresh(rt) ==> phase
            != AuthPhase::RefreshFailed && refresh_token_of(session) == Some(rt),
        refresh_plan(session, phase, now) matches AuthStep::TryRefresh(rt) ==> phase
            != AuthPhase::RefreshFailed && refresh_token_of(session) == Some(rt),
        login_plan(session, AuthPhase::RefreshFailed, now) == AuthStep::DeviceCode,
{
}

/// Keeping a token fresh before a request never starts the interactive
/// login, and asking for a token always ends in a token or a login.
pub proof fn law_silent_refresh_never_interactive(
    session: Option<SessionStore>,
    phase: AuthPhase,
    now: int,
)
    ensures
        refresh_plan(session, phase, now) != AuthStep::DeviceCode,
        login_plan(session, phase, now) != AuthStep::NoToken,
{
}

/// A cached token that is fresh enough for a request (five minutes left) is
/// also served when a token is asked for.
pub proof fn law_request_fresh_is_login_fresh(session: Option<SessionStore>, now: int)
    requires
        cached_fresh(session, request_margin(), now),
    ensures
        cached_fresh(session, login_margin(), now),
        login_plan(session, AuthPhase::Start, now) == refresh_plan(
            session,
            AuthPhase::Start,
            now,
        ),
{
}

/// Before a request, once every source has failed, the cached token is
/// used even if stale (the server then answers with an error); only with
/// no session at all is there no token.
pub proof fn law_last_resort_is_cached_token(session: Option<SessionStore>, now: int)
    ensures
        refresh_plan(session, AuthPhase::RefreshFailed, now) == match session {
            Some(s) => AuthStep::UseToken(s.access_token),
            None => AuthStep::NoToken,
        },
{
}

/// What a successful request stored is what the next request for a token
/// gets back, while it has more than 60 seconds left (at least five
/// minutes before a request).
pub proof fn law_stored_token_is_served(saved: SessionStore, result: TokenResult, now: int)
    requires
        saved.access_token == result.access_token,
        saved.expires_at == result.expires_on,
    ensures
        result.expires_on - now >= login_margin() ==> login_plan(
            Some(saved),
            AuthPhase::Start,
            now,
        ) == AuthStep::UseToken(result.access_token),
        result.expires_on - now >= request_margin() ==> refresh_plan(
            Some(saved),
            AuthPhase::Start,
            now,
        ) == AuthStep::UseToken(result.access_token),
{
}

/// Adding `offline_access` is idempotent, keeps the scopes asked for in
/// front, and always yields a list that holds it.
pub proof fn law_offline_scope(scopes: Seq<Seq<char>>)
    ensures
        with_offline(scopes).contains(offline_scope()),
        with_offline(with_offline(scopes)) == with_offline(scopes),
        with_offline(scopes).take(scopes.len() as int) == scopes,
{
    if !scopes.contains(offline_scope()) {
        let w = scopes.push(offline_scope());
        assert(w[scopes.len() as int] == offline_scope());
    }
    assert(with_offline(scopes).take(scopes.len() as int) =~= scopes);
}

} // verus!
