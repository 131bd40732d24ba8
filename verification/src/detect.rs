//! Status detection: interpretation of the four independent environment
//! probes and assembly of a status snapshot. Detection never fails — every
//! probe failure degrades to `false` in the corresponding field.

use vstd::prelude::*;
use crate::outcome::{Invocation, spec_probe_ok, probe_ok};
use crate::status::SetupStatus;
use crate::text::{spec_contains_substring, contains_substring};

verus! {

/// The fixed identifier whose presence in the assistant's registration
/// listing marks the integration as registered.
pub open spec fn spec_integration_identifier() -> Seq<char> {
    "servicenow"@
}

/// The fixed identifier searched for in the registration listing.
pub fn integration_identifier() -> (r: &'static str)
    ensures
        r@ == spec_integration_identifier(),
{
    "servicenow"
}

/// A registration-listing probe indicates registration exactly when the
/// probe ran, exited successfully, and its standard output contains the
/// integration's identifier. `None` stands for a probe that never ran
/// (the assistant binary could not be resolved).
pub open spec fn spec_registration_indicated(p: Option<Invocation>) -> bool {
    match p {
        Some(Invocation::Completed(o)) =>
            o.exit_success && spec_contains_substring(o.stdout@, spec_integration_identifier()),
        _ => false,
    }
}

/// Interpret the outcome of the assistant's list-registrations probe.
/// Every failure mode — no resolved binary (`None`), spawn failure,
/// non-zero exit — degrades to `false`.
pub fn check_mcp_server_registered(probe: &Option<Invocation>) -> (r: bool)
    ensures
        r == spec_registration_indicated(*probe),
{
    match probe {
        Some(Invocation::Completed(o)) => {
            if o.exit_success {
                contains_substring(o.stdout.as_str(), integration_identifier())
            } else {
                false
            }
        },
        _ => false,
    }
}

/// First launch holds exactly when no persisted state file exists.
pub fn check_first_launch(state_file_exists: bool) -> (r: bool)
    ensures
        r == !state_file_exists,
{
    !state_file_exists
}

/// The status snapshot determined by the probe outcomes: first launch iff
/// the state file is absent, each tool flag iff its probe succeeded, and
/// registration only ever reported when the assistant itself is installed.
pub open spec fn spec_status(
    state_file_exists: bool,
    npm_version_probe: Invocation,
    npm_list_probe: Invocation,
    assistant_found: bool,
    registration_probe: Option<Invocation>,
) -> SetupStatus {
    SetupStatus {
        is_first_launch: !state_file_exists,
        npm_installed: spec_probe_ok(npm_version_probe),
        mcp_server_installed: spec_probe_ok(npm_list_probe),
        mcp_server_registered: assistant_found && spec_registration_indicated(registration_probe),
        claude_code_installed: assistant_found,
    }
}

/// Assemble the status snapshot from the captured probe outcomes. Total:
/// no probe failure is an error, each degrades to `false` in its field.
pub fn get_setup_status(
    state_file_exists: bool,
    npm_version_probe: &Invocation,
    npm_list_probe: &Invocation,
    assistant_found: bool,
    registration_probe: &Option<Invocation>,
) -> (r: SetupStatus)
    ensures
        r == spec_status(
            state_file_exists,
            *npm_version_probe,
            *npm_list_probe,
            assistant_found,
            *registration_probe,
        ),
{
    let is_first_launch = check_first_launch(state_file_exists);
    let npm_installed = probe_ok(npm_version_probe);
    let mcp_server_installed = probe_ok(npm_list_probe);
    let claude_code_installed = assistant_found;
    let mcp_server_registered = if claude_code_installed {
        check_mcp_server_registered(registration_probe)
    } else {
        false
    };
    SetupStatus {
        is_first_launch,
        npm_installed,
        mcp_server_installed,
        mcp_server_registered,
        claude_code_installed,
    }
}

/// The launch-time entry: computes the current snapshot and returns it
/// unchanged whether or not this is the first launch — the decision to
/// prompt the user is deferred to the caller.
pub fn auto_setup_on_launch(
    state_file_exists: bool,
    npm_version_probe: &Invocation,
    npm_list_probe: &Invocation,
    assistant_found: bool,
    registration_probe: &Option<Invocation>,
) -> (r: SetupStatus)
    ensures
        r == spec_status(
            state_file_exists,
            *npm_version_probe,
            *npm_list_probe,
            assistant_found,
            *registration_probe,
        ),
{
    let status = get_setup_status(
        state_file_exists,
        npm_version_probe,
        npm_list_probe,
        assistant_found,
        registration_probe,
    );
    if !status.is_first_launch {
        return status;
    }
    status
}

/// A failed probe can only degrade its field to `false`, never abort the
/// snapshot: whatever the other probes returned, the field fed by a failed
/// probe is `false` in the assembled status.
pub proof fn lemma_failed_probes_degrade(
    state_file_exists: bool,
    npm_version_probe: Invocation,
    npm_list_probe: Invocation,
    assistant_found: bool,
    registration_probe: Option<Invocation>,
)
    ensures
        !spec_probe_ok(npm_version_probe) ==> !spec_status(
            state_file_exists, npm_version_probe, npm_list_probe,
            assistant_found, registration_probe,
        ).npm_installed,
        !spec_probe_ok(npm_list_probe) ==> !spec_status(
            state_file_exists, npm_version_probe, npm_list_probe,
            assistant_found, registration_probe,
        ).mcp_server_installed,
        !assistant_found ==> !spec_status(
            state_file_exists, npm_version_probe, npm_list_probe,
            assistant_found, registration_probe,
        ).claude_code_installed,
        !spec_registration_indicated(registration_probe) ==> !spec_status(
            state_file_exists, npm_version_probe, npm_list_probe,
            assistant_found, registration_probe,
        ).mcp_server_registered,
{
}

/// Registration is only ever reported together with an installed
/// assistant: a snapshot never claims `mcp_server_registered` while
/// `claude_code_installed` is `false`.
pub proof fn lemma_registration_needs_assistant(
    state_file_exists: bool,
    npm_version_probe: Invocation,
    npm_list_probe: Invocation,
    assistant_found: bool,
    registration_probe: Option<Invocation>,
)
    ensures
        spec_status(
            state_file_exists, npm_version_probe, npm_list_probe,
            assistant_found, registration_probe,
        ).mcp_server_registered ==> spec_status(
            state_file_exists, npm_version_probe, npm_list_probe,
            assistant_found, registration_probe,
        ).claude_code_installed,
{
}

/// Once a completion marker has been persisted, no later snapshot reports
/// a first launch, whatever the probes return.
pub proof fn lemma_marker_ends_first_launch(
    npm_version_probe: Invocation,
    npm_list_probe: Invocation,
    assistant_found: bool,
    registration_probe: Option<Invocation>,
)
    ensures
        !spec_status(
            true, npm_version_probe, npm_list_probe,
            assistant_found, registration_probe,
        ).is_first_launch,
{
}

} // verus!
