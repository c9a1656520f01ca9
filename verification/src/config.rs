use vstd::prelude::*;
use vstd::string::*;

verus! {

/// Subcommands of the client.
#[derive(Clone, Copy, Debug, PartialEq, Eq, Structural)]
pub enum Command {
    /// Log in via device code flow and cache the token.
    Login,
    /// Clear cached tokens.
    Logout,
    /// Show current auth status.
    Status,
}

/// The command line, as plain values.
#[derive(Debug)]
pub struct Cli {
    pub command: Option<Command>,
    /// A2A endpoint URL.
    pub endpoint: Option<String>,
    /// Auth token (JWT) given on the command line.
    pub token: Option<String>,
    /// Azure AD application (client) ID.
    pub appid: Option<String>,
    /// Azure AD tenant ID ("common" unless given).
    pub tenant_id: String,
    /// Azure AD authority URL; overrides the tenant ID.
    pub authority: Option<String>,
    /// OAuth scopes.
    pub scopes: Vec<String>,
    /// Redirect URI for brokered auth.
    pub redirect_uri: Option<String>,
    /// Account hint.
    pub account: Option<String>,
    /// Streaming mode (SSE).
    pub stream: bool,
    /// Verbosity level (0 = quiet, 1 = normal, 2 = wire).
    pub verbosity: u8,
    /// Show the raw token in output.
    pub show_token: bool,
}

/// Errors that the command line itself can cause.
#[derive(Clone, Copy, Debug, PartialEq, Eq, Structural)]
pub enum CliError {
    /// No application id was given (`--appid` / `A2A_APP_ID`).
    MissingAppId,
    /// No endpoint was given (`--endpoint` / `A2A_ENDPOINT`).
    MissingEndpoint,
}

/// The prefix of the authority URL built from a tenant id.
pub open spec fn authority_prefix() -> Seq<char> {
    "https://login.microsoftonline.com/"@
}

/// The authority URL: the explicit one when given, else the tenant's URL.
pub open spec fn resolved_authority(authority: Option<Seq<char>>, tenant_id: Seq<char>) -> Seq<char> {
    match authority {
        Some(a) => a,
        None => authority_prefix() + tenant_id,
    }
}

pub open spec fn opt_view(o: Option<String>) -> Option<Seq<char>> {
    match o {
        Some(s) => Some(s@),
        None => None,
    }
}

/// Where the token for an interactive session comes from.
#[derive(Debug, PartialEq, Eq)]
pub enum TokenSource {
    /// The token given on the command line.
    Given(String),
    /// A token obtained by logging in (cached session, broker, refresh or
    /// device code).
    Login,
}

/// What an interactive session needs before it starts.
#[derive(Debug, PartialEq, Eq)]
pub struct ReplPlan {
    pub endpoint: String,
    pub token: TokenSource,
}

/// How each message is sent.
#[derive(Debug, PartialEq, Eq)]
pub struct MessageSettings {
    /// Output MIME types the client accepts.
    pub accepted_output_modes: Vec<String>,
    /// Wait for the task to finish (not in streaming mode).
    pub blocking: bool,
}

impl CliError {
    /// The message shown for the error.
    pub fn message(&self) -> (r: String)
        ensures
            r@ == match self {
                CliError::MissingAppId => "--appid is required (or set A2A_APP_ID)"@,
                CliError::MissingEndpoint => "--endpoint is required (or set A2A_ENDPOINT)"@,
            },
    {
        match self {
            CliError::MissingAppId => String::from_str("--appid is required (or set A2A_APP_ID)"),
            CliError::MissingEndpoint => String::from_str(
                "--endpoint is required (or set A2A_ENDPOINT)",
            ),
        }
    }
}

/// Login needs an application id.
pub fn require_auth_args(app_id: &str) -> (r: Result<(), CliError>)
    ensures
        r is Err <==> app_id@.len() == 0,
        r matches Err(e) ==> e == CliError::MissingAppId,
{
    if app_id.is_empty() {
        Err(CliError::MissingAppId)
    } else {
        Ok(())
    }
}

/// The label of the session banner: `READY — <mode> — <endpoint>`.
pub open spec fn ready_label_spec(stream: bool, endpoint: Seq<char>) -> Seq<char> {
    "READY — "@ + (if stream {
        "Streaming"@
    } else {
        "Sync"@
    }) + " — "@ + endpoint
}

/// The label of the session banner.
pub fn ready_label(stream: bool, endpoint: &str) -> (r: String)
    ensures
        r@ == ready_label_spec(stream, endpoint@),
{
    let mut s = String::from_str("READY — ");
    if stream {
        s.append("Streaming");
    } else {
        s.append("Sync");
    }
    s.append(" — ");
    s.append(endpoint);
    s
}

impl Cli {
    /// The application id, empty when none was given.
    pub fn app_id(&self) -> (r: String)
        ensures
            r@ == match self.appid {
                Some(a) => a@,
                None => Seq::<char>::empty(),
            },
    {
        match &self.appid {
            Some(a) => a.clone(),
            None => String::new(),
        }
    }

    /// What an interactive session needs: an endpoint, then either the
    /// token given on the command line or, with an application id, a
    /// login.
    pub fn repl_plan(&self, app_id: &str) -> (r: Result<ReplPlan, CliError>)
        ensures
            match r {
                Ok(p) => {
                    &&& self.endpoint matches Some(e) && p.endpoint@ == e@
                    &&& match self.token {
                        Some(t) => p.token matches TokenSource::Given(g) && g@ == t@,
                        None => p.token == TokenSource::Login && app_id@.len() > 0,
                    }
                },
                Err(CliError::MissingEndpoint) => self.endpoint is None,
                Err(CliError::MissingAppId) => self.endpoint is Some && self.token is None
                    && app_id@.len() == 0,
            },
    {
        let endpoint = match &self.endpoint {
            Some(e) => e.clone(),
            None => return Err(CliError::MissingEndpoint),
        };
        let token = match &self.token {
            Some(t) => TokenSource::Given(t.clone()),
            None => {
                if app_id.is_empty() {
                    return Err(CliError::MissingAppId);
                }
                TokenSource::Login
            },
        };
        Ok(ReplPlan { endpoint, token })
    }

    /// How each message is sent: plain text accepted; blocking unless
    /// streaming.
    pub fn message_settings(&self) -> (r: MessageSettings)
        ensures
            r.accepted_output_modes@.len() == 1,
            r.accepted_output_modes@[0]@ == "text/plain"@,
            r.blocking == !self.stream,
    {
        let mut modes: Vec<String> = Vec::new();
        modes.push(String::from_str("text/plain"));
        MessageSettings { accepted_output_modes: modes, blocking: !self.stream }
    }

    /// Resolve the authority URL from `--authority` or `--tenant-id`.
    pub fn authority(&self) -> (r: String)
        ensures
            r@ == resolved_authority(opt_view(self.authority), self.tenant_id@),
    {
        match &self.authority {
            Some(a) => a.clone(),
            None => {
                let mut url = String::from_str("https://login.microsoftonline.com/");
                url.append(self.tenant_id.as_str());
                url
            },
        }
    }
}

} // verus!
