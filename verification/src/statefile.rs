//! The persisted completion marker: its fixed file name, its JSON
//! document, and the two terminal snapshots that produce it. Only the
//! file's existence is ever consulted afterwards; its field values are
//! informational.

use vstd::prelude::*;
use crate::status::SetupStatus;

verus! {

/// The fixed name of the state file inside the application-private data
/// directory.
pub open spec fn spec_state_file_name() -> Seq<char> {
    "setup_state.json"@
}

/// The fixed name of the state file inside the application-private data
/// directory.
pub fn state_file_name() -> (r: &'static str)
    ensures
        r@ == spec_state_file_name(),
{
    "setup_state.json"
}

/// JSON rendering of a boolean value.
pub open spec fn spec_bool_text(b: bool) -> Seq<char> {
    if b {
        "true"@
    } else {
        "false"@
    }
}

fn bool_text(b: bool) -> (r: &'static str)
    ensures
        r@ == spec_bool_text(b),
{
    if b {
        "true"
    } else {
        "false"
    }
}

/// The exact text of the persisted state document: a human-readable JSON
/// object with one member per snapshot field, in declaration order,
/// indented by two spaces.
pub open spec fn spec_state_json(s: SetupStatus) -> Seq<char> {
    "{\n  \"is_first_launch\": "@ + spec_bool_text(s.is_first_launch)
        + ",\n  \"npm_installed\": "@ + spec_bool_text(s.npm_installed)
        + ",\n  \"mcp_server_installed\": "@ + spec_bool_text(s.mcp_server_installed)
        + ",\n  \"mcp_server_registered\": "@ + spec_bool_text(s.mcp_server_registered)
        + ",\n  \"claude_code_installed\": "@ + spec_bool_text(s.claude_code_installed) + "\n}"@
}

/// Serialize a snapshot to the state document that is written to the
/// state file, overwriting any prior content.
pub fn render_state_json(s: &SetupStatus) -> (r: String)
    ensures
        r@ == spec_state_json(*s),
{
    let mut out = String::new();
    out.append("{\n  \"is_first_launch\": ");
    out.append(bool_text(s.is_first_launch));
    out.append(",\n  \"npm_installed\": ");
    out.append(bool_text(s.npm_installed));
    out.append(",\n  \"mcp_server_installed\": ");
    out.append(bool_text(s.mcp_server_installed));
    out.append(",\n  \"mcp_server_registered\": ");
    out.append(bool_text(s.mcp_server_registered));
    out.append(",\n  \"claude_code_installed\": ");
    out.append(bool_text(s.claude_code_installed));
    out.append("\n}");
    assert(out@ =~= spec_state_json(*s));
    out
}

/// The terminal snapshot persisted when setup finished: every condition
/// satisfied, and no longer a first launch.
pub open spec fn spec_complete_status() -> SetupStatus {
    SetupStatus {
        is_first_launch: false,
        npm_installed: true,
        mcp_server_installed: true,
        mcp_server_registered: true,
        claude_code_installed: true,
    }
}

/// The terminal snapshot persisted when setup was skipped: every flag
/// false, yet the document's mere existence still ends the first launch.
pub open spec fn spec_skip_status() -> SetupStatus {
    SetupStatus {
        is_first_launch: false,
        npm_installed: false,
        mcp_server_installed: false,
        mcp_server_registered: false,
        claude_code_installed: false,
    }
}

/// Mark setup as done: the all-true terminal snapshot together with the
/// state document to persist at the fixed path.
pub fn complete_setup() -> (r: (SetupStatus, String))
    ensures
        r.0 == spec_complete_status(),
        r.1@ == spec_state_json(spec_complete_status()),
{
    let state = SetupStatus {
        is_first_launch: false,
        npm_installed: true,
        mcp_server_installed: true,
        mcp_server_registered: true,
        claude_code_installed: true,
    };
    let json = render_state_json(&state);
    (state, json)
}

/// Skip setup: the all-false terminal snapshot together with the state
/// document to persist at the fixed path. Persisting it still ends the
/// first launch, since only the file's existence is consulted.
pub fn skip_setup() -> (r: (SetupStatus, String))
    ensures
        r.0 == spec_skip_status(),
        r.1@ == spec_state_json(spec_skip_status()),
{
    let state = SetupStatus {
        is_first_launch: false,
        npm_installed: false,
        mcp_server_installed: false,
        mcp_server_registered: false,
        claude_code_installed: false,
    };
    let json = render_state_json(&state);
    (state, json)
}

} // verus!
