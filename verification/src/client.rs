use vstd::prelude::*;

use a2a_rs_client::A2aClient;

verus! {

#[verifier::external_type_specification]
#[verifier::external_body]
pub struct ExA2aClient(a2a_rs_client::A2aClient);

#[verifier::external_type_specification]
#[verifier::external_body]
pub struct ExHttpClient(reqwest::Client);

#[verifier::external_type_specification]
#[verifier::external_body]
pub struct ExHttpError(reqwest::Error);

#[verifier::external_type_specification]
#[verifier::external_body]
pub struct ExAnyError(anyhow::Error);

/// Why a session client could not be made.
#[derive(Debug)]
pub enum ClientError {
    /// The HTTP client could not be built.
    HttpClient(reqwest::Error),
    /// The endpoint is not a URL that the A2A client accepts.
    Endpoint(anyhow::Error),
}

/// The A2A client accepts `url` as its server URL (`A2aClient::new`
/// succeeds exactly when `url::Url::parse` accepts it).
pub uninterp spec fn accepts_server_url(url: Seq<char>) -> bool;

/// Which wire format of A2A a client speaks.
#[derive(Clone, Copy, Debug, PartialEq, Eq, Structural)]
pub enum WireProtocol {
    /// A2A v1.0.
    V1_0,
    /// A2A v0.3.
    V0_3,
}

/// What an A2A client was set up with: its server URL, its direct
/// JSON-RPC endpoint (none: found through the agent card), its wire
/// format, and the timeout of its HTTP client in seconds.
pub struct A2aSettings {
    pub server_url: Seq<char>,
    pub endpoint_url: Option<Seq<char>>,
    pub protocol: WireProtocol,
    pub timeout_secs: u64,
}

/// What an A2A client was set up with (`A2aClient::new` keeps the
/// configuration it is given, and `server_url` reads it back).
pub uninterp spec fn a2a_settings_of(client: A2aClient) -> A2aSettings;

/// The request timeout, in seconds, that a `reqwest::Client` was built
/// with.
pub uninterp spec fn http_timeout_secs(client: reqwest::Client) -> u64;

/// Seconds an HTTP request may take before it is abandoned.
pub const REQUEST_TIMEOUT_SECS: u64 = 300;

pub open spec fn opt_str_view(o: Option<&str>) -> Option<Seq<char>> {
    match o {
        Some(s) => Some(s@),
        None => None,
    }
}

/// `reqwest::Client::builder().timeout(..).build()` with a timeout of
/// `timeout_secs` seconds. Whether it succeeds depends on the TLS setup
/// of the machine; the contract claims that a client it builds has that
/// timeout.
#[verifier::external_body]
fn build_http_client(timeout_secs: u64) -> (r: Result<reqwest::Client, reqwest::Error>)
    ensures
        r matches Ok(h) ==> http_timeout_secs(h) == timeout_secs,
{
    reqwest::Client::builder().timeout(std::time::Duration::from_secs(timeout_secs)).build()
}

/// `A2aClient::server_url`: the configured server URL.
#[verifier::external_body]
fn a2a_server_url(client: &A2aClient) -> (r: &str)
    ensures
        r@ == a2a_settings_of(*client).server_url,
{
    client.server_url()
}

/// `A2aClient::new` with a `ClientConfig` made of the arguments (the
/// other fields at their defaults). The contract claims that it succeeds
/// exactly when the server URL is one it accepts, named
/// `accepts_server_url`, and that the client it makes keeps the server
/// URL, endpoint URL, wire format and HTTP client it was given.
#[verifier::external_body]
fn new_a2a_client(
    server_url: &str,
    endpoint_url: Option<&str>,
    protocol: WireProtocol,
    http: reqwest::Client,
) -> (r: Result<A2aClient, anyhow::Error>)
    ensures
        r is Ok <==> accepts_server_url(server_url@),
        r matches Ok(c) ==> a2a_settings_of(c) == (A2aSettings {
            server_url: server_url@,
            endpoint_url: opt_str_view(endpoint_url),
            protocol: protocol,
            timeout_secs: http_timeout_secs(http),
        }),
{
    A2aClient::new(a2a_rs_client::ClientConfig {
        server_url: server_url.to_string(),
        endpoint_url: match endpoint_url {
            Some(e) => Some(e.to_string()),
            None => None,
        },
        http_client: Some(http),
        protocol_version: match protocol {
            WireProtocol::V1_0 => a2a_rs_client::ProtocolVersion::V1_0,
            WireProtocol::V0_3 => a2a_rs_client::ProtocolVersion::V0_3,
        },
        ..Default::default()
    })
}

/// The set-up of a session client for `endpoint`: the endpoint as server
/// URL and as direct JSON-RPC endpoint (no agent card discovery), A2A
/// v0.3, and the request timeout.
pub open spec fn session_settings(endpoint: Seq<char>) -> A2aSettings {
    A2aSettings {
        server_url: endpoint,
        endpoint_url: Some(endpoint),
        protocol: WireProtocol::V0_3,
        timeout_secs: REQUEST_TIMEOUT_SECS,
    }
}

/// An A2A client bound to one endpoint, with the bearer token that goes
/// with each request.
pub struct A2ASessionClient {
    client: A2aClient,
    token: String,
}

impl A2ASessionClient {
    /// The bearer token sent with requests.
    pub closed spec fn token_view(&self) -> Seq<char> {
        self.token@
    }

    /// The underlying A2A client this session sends through.
    pub closed spec fn client_view(&self) -> A2aClient {
        self.client
    }

    /// A client for `endpoint` that sends `token`.
    pub fn new(endpoint: &str, token: &str) -> (r: Result<Self, ClientError>)
        ensures
            match r {
                Ok(c) => {
                    &&& c.token_view() == token@
                    &&& accepts_server_url(endpoint@)
                    &&& a2a_settings_of(c.client_view()) == session_settings(endpoint@)
                },
                Err(ClientError::Endpoint(_)) => !accepts_server_url(endpoint@),
                Err(ClientError::HttpClient(_)) => true,
            },
    {
        let http = match build_http_client(REQUEST_TIMEOUT_SECS) {
            Ok(h) => h,
            Err(e) => return Err(ClientError::HttpClient(e)),
        };
        match new_a2a_client(endpoint, Some(endpoint), WireProtocol::V0_3, http) {
            Ok(client) => Ok(A2ASessionClient { client, token: token.to_owned() }),
            Err(e) => Err(ClientError::Endpoint(e)),
        }
    }

    /// Send `token` from now on. No client rebuild is needed: the token
    /// goes with each request.
    pub fn update_token(&mut self, token: &str)
        ensures
            final(self).token_view() == token@,
            final(self).client_view() == old(self).client_view(),
    {
        self.token = token.to_owned();
    }

    /// The endpoint the client sends to.
    pub fn endpoint(&self) -> (r: &str)
        ensures
            r@ == a2a_settings_of(self.client_view()).server_url,
    {
        a2a_server_url(&self.client)
    }

    /// Take a freshly obtained token, if there is one: it is sent from now
    /// on. The result tells whether the token changed.
    pub fn adopt_fresh_token(&mut self, fresh: Option<&str>) -> (changed: bool)
        ensures
            final(self).client_view() == old(self).client_view(),
            match fresh {
                Some(t) => final(self).token_view() == t@ && changed == (t@ != old(self).token_view()),
                None => final(self).token_view() == old(self).token_view() && !changed,
            },
    {
        match fresh {
            Some(t) => {
                let changed = !crate::text::str_eq(t, self.token.as_str());
                if changed {
                    self.token = t.to_owned();
                }
                changed
            },
            None => false,
        }
    }

    /// The bearer token sent with requests.
    pub fn token(&self) -> (r: &str)
        ensures
            r@ == self.token_view(),
    {
        self.token.as_str()
    }

    /// The underlying A2A client.
    pub fn client(&self) -> (r: &A2aClient)
        ensures
            *r == self.client_view(),
    {
        &self.client
    }
}

} // verus!
