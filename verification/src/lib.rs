//! Core logic of the A2A command-line client: configuration resolution,
//! cached-session bookkeeping, the token acquisition policy, JWT inspection
//! and the rendering decisions for agent replies.

mod auth;
mod client;
mod config;
mod display;
mod jwt;
mod repl;
mod session;
mod text;

pub use auth::{AuthManager, AuthPhase, AuthStep, TokenResult};
pub use client::{A2ASessionClient, ClientError, REQUEST_TIMEOUT_SECS, WireProtocol};
pub use config::{
    Cli, CliError, Command, MessageSettings, ReplPlan, TokenSource, ready_label, require_auth_args,
};
pub use display::{
    AgentArtifact, AgentMessage, AgentPart, AgentTask, Output, SendResult, StreamEvent, copy_part,
    display_result, part_text, stream_event,
};
pub use jwt::{
    ClaimLine, Expiry, JsonDoc, JsonEntry, JsonField, TokenReport, claim_lines, decode_jwt_part,
    decode_token, decode_token_at, exp_claim, expiry_at, show_field, split_char, trim_end_char,
};
pub use repl::{InputAction, classify_input, eq_ignore_ascii_case, trim};
pub use session::{
    ClockReading, SessionStore, TokenStatus, now_unix_seconds, store_dir, store_dir_in, store_path,
    store_path_in, unix_seconds,
};
