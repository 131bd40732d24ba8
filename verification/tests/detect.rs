use auto_setup::detect::{
    auto_setup_on_launch, check_first_launch, check_mcp_server_registered, get_setup_status,
    integration_identifier,
};
use auto_setup::outcome::{CmdOutput, Invocation};
use auto_setup::text::contains_substring;

fn completed(exit_success: bool, stdout: &str, stderr: &str) -> Invocation {
    Invocation::Completed(CmdOutput {
        exit_success,
        stdout: stdout.to_string(),
        stderr: stderr.to_string(),
    })
}

fn spawn_failed(msg: &str) -> Invocation {
    Invocation::NotSpawned(msg.to_string())
}

#[test]
fn first_launch_is_state_file_absence() {
    assert!(check_first_launch(false));
    assert!(!check_first_launch(true));
}

#[test]
fn identifier_is_fixed() {
    assert_eq!(integration_identifier(), "servicenow");
}

#[test]
fn substring_search_finds_identifier() {
    assert!(contains_substring("servicenow: npx servicenow-mcp-server", "servicenow"));
    assert!(contains_substring("xservicenowy", "servicenow"));
    assert!(!contains_substring("service now", "servicenow"));
    assert!(!contains_substring("", "servicenow"));
    assert!(contains_substring("anything", ""));
}

#[test]
fn registration_probe_matches_on_stdout_substring() {
    assert!(check_mcp_server_registered(&Some(completed(
        true,
        "servicenow: npx servicenow-mcp-server - ✓ Connected",
        ""
    ))));
    assert!(!check_mcp_server_registered(&Some(completed(true, "no entries", ""))));
    assert!(!check_mcp_server_registered(&Some(completed(false, "servicenow", ""))));
    assert!(!check_mcp_server_registered(&Some(spawn_failed("not runnable"))));
    assert!(!check_mcp_server_registered(&None));
}

// Every simulated probe failure - spawn error or non-zero exit - yields
// `false` in its status field, and the status check still succeeds.
#[test]
fn failed_probes_degrade_to_false() {
    let status = get_setup_status(
        false,
        &spawn_failed("npm: command not found"),
        &completed(false, "", "missing package"),
        false,
        &None,
    );
    assert!(status.is_first_launch);
    assert!(!status.npm_installed);
    assert!(!status.mcp_server_installed);
    assert!(!status.claude_code_installed);
    assert!(!status.mcp_server_registered);
}

// `integration_registered` stays false whenever the assistant is not
// installed, whatever the registration probe would have reported.
#[test]
fn registration_forced_false_without_assistant() {
    let status = get_setup_status(
        true,
        &completed(true, "10.2.3", ""),
        &completed(true, "", ""),
        false,
        &Some(completed(true, "servicenow", "")),
    );
    assert!(!status.claude_code_installed);
    assert!(!status.mcp_server_registered);
    assert!(status.npm_installed);
    assert!(status.mcp_server_installed);
}

// Scenario A: no state file and a failing package-manager probe.
#[test]
fn scenario_no_state_file_and_failed_npm_probe() {
    let status = get_setup_status(
        false,
        &completed(false, "", "npm error"),
        &completed(false, "", "npm error"),
        false,
        &None,
    );
    assert!(status.is_first_launch);
    assert!(!status.npm_installed);
    assert!(!status.mcp_server_installed);
    assert!(!status.claude_code_installed);
    assert!(!status.mcp_server_registered);
}

// Scenario B: state file present, assistant resolved, and the listing
// probe's output contains the identifier: registered, with no mutation.
#[test]
fn scenario_registered_when_listing_shows_identifier() {
    let status = get_setup_status(
        true,
        &completed(true, "10.2.3", ""),
        &completed(true, "servicenow-mcp-server@1.0.0", ""),
        true,
        &Some(completed(true, "servicenow: npx servicenow-mcp-server", "")),
    );
    assert!(!status.is_first_launch);
    assert!(status.npm_installed);
    assert!(status.mcp_server_installed);
    assert!(status.claude_code_installed);
    assert!(status.mcp_server_registered);
}

#[test]
fn launch_entry_returns_status_unchanged() {
    let npm = completed(true, "10.2.3", "");
    let list = completed(true, "", "");
    let reg = Some(completed(true, "nothing here", ""));
    let from_launch = auto_setup_on_launch(false, &npm, &list, true, &reg);
    let from_detect = get_setup_status(false, &npm, &list, true, &reg);
    assert_eq!(from_launch, from_detect);
    assert!(from_launch.is_first_launch);
    assert!(!from_launch.mcp_server_registered);
}
