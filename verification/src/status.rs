//! The status snapshot and the credentials value object.

use vstd::prelude::*;

verus! {

/// Snapshot of the setup state: one flag per probed condition, plus the
/// first-launch marker. Immutable once constructed; every detection pass
/// builds a fresh one.
#[derive(Debug, Clone, PartialEq, Eq, Structural)]
pub struct SetupStatus {
    pub is_first_launch: bool,
    pub npm_installed: bool,
    pub mcp_server_installed: bool,
    pub mcp_server_registered: bool,
    pub claude_code_installed: bool,
}

/// Credentials for one registration attempt: held only for the duration of
/// the call, never persisted by this library.
#[derive(Debug, Clone)]
pub struct ServiceNowCredentials {
    pub instance_url: String,
    pub username: String,
    pub password: String,
}

} // verus!
