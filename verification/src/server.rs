//! The gateway: where it listens, and which requests it lets through.

use crate::auth::{admitted, auth_middleware, header_bytes, TokenStore, UNAUTHORIZED};
use crate::config::{number_setting, port_or, text_or, text_setting, DEFAULT_HOST};
use crate::protocol::HEALTH_PATH;
use crate::text::str_equal;
use vstd::prelude::*;

verus! {

/// The port that a gateway listens on unless told otherwise.
pub const DEFAULT_SERVER_PORT: u16 = 8080;

/// The path that the capability is served under.
pub const MCP_PATH: &'static str = "/mcp";

/// Where a gateway listens.
#[derive(Debug, PartialEq, Eq)]
pub struct ServerConfig {
    pub host: String,
    pub port: u16,
}

impl ServerConfig {
    /// The configuration for the host and port settings, each with its
    /// default where it is absent or unreadable.
    pub fn from_env(host: Option<&str>, port: Option<&str>) -> (config: ServerConfig)
        ensures
            config.host@ == text_setting(host, DEFAULT_HOST@),
            config.port == number_setting(port, DEFAULT_SERVER_PORT as nat, u16::MAX as nat),
    {
        ServerConfig { host: text_or(host, DEFAULT_HOST), port: port_or(port, DEFAULT_SERVER_PORT) }
    }
}

/// Whether the gateway lets a request through: the liveness probe always,
/// any other request by its credential.
pub open spec fn passes(tokens: Set<Seq<char>>, path: Seq<char>, header: Option<Seq<u8>>) -> bool {
    path == HEALTH_PATH@ || admitted(tokens, header)
}

/// Decides whether the gateway lets a request through: `Ok` for the
/// liveness probe and for a request whose authorization header presents a
/// token of the store, else the unauthorized status.
pub fn authorize(token_store: &TokenStore, path: &str, authorization: Option<&[u8]>) -> (r: Result<
    (),
    u16,
>)
    ensures
        r == if passes(token_store@, path@, header_bytes(authorization)) {
            Ok::<(), u16>(())
        } else {
            Err::<(), u16>(UNAUTHORIZED)
        },
{
    if str_equal(path, HEALTH_PATH) {
        Ok(())
    } else {
        auth_middleware(token_store, authorization)
    }
}

/// The liveness probe passes whatever the request presents, and whatever
/// the store holds.
pub proof fn lemma_liveness_needs_no_credential(tokens: Set<Seq<char>>, header: Option<Seq<u8>>)
    ensures
        passes(tokens, HEALTH_PATH@, header),
{
}

/// Off the liveness probe, a request passes only by a token of the store.
pub proof fn lemma_other_paths_need_credential(
    tokens: Set<Seq<char>>,
    path: Seq<char>,
    header: Option<Seq<u8>>,
)
    requires
        path != HEALTH_PATH@,
    ensures
        passes(tokens, path, header) == admitted(tokens, header),
{
}

} // verus!
