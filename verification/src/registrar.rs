//! The two idempotent mutating operations — installing the integration
//! package and registering it with the assistant binary — as decision
//! logic over captured subprocess outcomes, together with the exact
//! invocation recipes those operations issue.

use vstd::prelude::*;
use crate::outcome::Invocation;
use crate::status::ServiceNowCredentials;
use crate::detect::{spec_registration_indicated, check_mcp_server_registered};

verus! {

/// A subprocess invocation recipe: the program to run and its arguments.
#[derive(Debug, Clone)]
pub struct CommandSpec {
    pub program: String,
    pub args: Vec<String>,
}

/// The fixed name of the globally installed integration package.
pub open spec fn spec_package_name() -> Seq<char> {
    "servicenow-mcp-server"@
}

/// The fixed name of the globally installed integration package.
pub fn package_name() -> (r: &'static str)
    ensures
        r@ == spec_package_name(),
{
    "servicenow-mcp-server"
}

/// Recipe for the package manager's version probe.
pub fn npm_version_command() -> (r: CommandSpec)
    ensures
        r.program@ == "npm"@,
        r.args@.len() == 1,
        r.args@[0]@ == "--version"@,
{
    let mut args: Vec<String> = Vec::new();
    args.push(String::from_str("--version"));
    CommandSpec { program: String::from_str("npm"), args }
}

/// Recipe for the package manager's global-list probe, filtered to the
/// integration package.
pub fn npm_list_command() -> (r: CommandSpec)
    ensures
        r.program@ == "npm"@,
        r.args@.len() == 3,
        r.args@[0]@ == "list"@,
        r.args@[1]@ == "-g"@,
        r.args@[2]@ == spec_package_name(),
{
    let mut args: Vec<String> = Vec::new();
    args.push(String::from_str("list"));
    args.push(String::from_str("-g"));
    args.push(String::from_str(package_name()));
    CommandSpec { program: String::from_str("npm"), args }
}

/// Recipe for the package manager's global-install invocation.
pub fn install_command() -> (r: CommandSpec)
    ensures
        r.program@ == "npm"@,
        r.args@.len() == 3,
        r.args@[0]@ == "install"@,
        r.args@[1]@ == "-g"@,
        r.args@[2]@ == spec_package_name(),
{
    let mut args: Vec<String> = Vec::new();
    args.push(String::from_str("install"));
    args.push(String::from_str("-g"));
    args.push(String::from_str(package_name()));
    CommandSpec { program: String::from_str("npm"), args }
}

/// Recipe for the assistant's list-registrations probe.
pub fn list_registrations_command(assistant_path: &str) -> (r: CommandSpec)
    ensures
        r.program@ == assistant_path@,
        r.args@.len() == 2,
        r.args@[0]@ == "mcp"@,
        r.args@[1]@ == "list"@,
{
    let mut args: Vec<String> = Vec::new();
    args.push(String::from_str("mcp"));
    args.push(String::from_str("list"));
    CommandSpec { program: String::from_str(assistant_path), args }
}

/// The exact argument list of the assistant's add-registration
/// invocation: user scope, the three credential bindings as named
/// environment entries scoped to the registered entry, the integration's
/// name, and the fixed launch recipe for the integration process.
pub open spec fn spec_registration_args(args: Seq<String>, c: ServiceNowCredentials) -> bool {
    &&& args.len() == 14
    &&& args[0]@ == "mcp"@
    &&& args[1]@ == "add"@
    &&& args[2]@ == "-s"@
    &&& args[3]@ == "user"@
    &&& args[4]@ == "-e"@
    &&& args[5]@ == "SERVICENOW_INSTANCE_URL="@ + c.instance_url@
    &&& args[6]@ == "-e"@
    &&& args[7]@ == "SERVICENOW_USERNAME="@ + c.username@
    &&& args[8]@ == "-e"@
    &&& args[9]@ == "SERVICENOW_PASSWORD="@ + c.password@
    &&& args[10]@ == "servicenow"@
    &&& args[11]@ == "--"@
    &&& args[12]@ == "npx"@
    &&& args[13]@ == spec_package_name()
}

/// Build the add-registration invocation for the resolved assistant
/// binary. The credentials travel only in this recipe's argument list,
/// never through any persisted configuration.
pub fn registration_command(assistant_path: &str, credentials: &ServiceNowCredentials) -> (r:
    CommandSpec)
    ensures
        r.program@ == assistant_path@,
        spec_registration_args(r.args@, *credentials),
{
    let mut args: Vec<String> = Vec::new();
    args.push(String::from_str("mcp"));
    args.push(String::from_str("add"));
    args.push(String::from_str("-s"));
    args.push(String::from_str("user"));
    args.push(String::from_str("-e"));
    args.push(String::from_str("SERVICENOW_INSTANCE_URL=").concat(credentials.instance_url.as_str()));
    args.push(String::from_str("-e"));
    args.push(String::from_str("SERVICENOW_USERNAME=").concat(credentials.username.as_str()));
    args.push(String::from_str("-e"));
    args.push(String::from_str("SERVICENOW_PASSWORD=").concat(credentials.password.as_str()));
    args.push(String::from_str("servicenow"));
    args.push(String::from_str("--"));
    args.push(String::from_str("npx"));
    args.push(String::from_str(package_name()));
    CommandSpec { program: String::from_str(assistant_path), args }
}

/// Interpret the outcome of the global-install invocation: on success the
/// captured standard output is returned verbatim; a non-zero exit carries
/// the captured standard error, a spawn failure the spawn error text.
pub fn install_mcp_server(outcome: &Invocation) -> (r: Result<String, String>)
    ensures
        match *outcome {
            Invocation::Completed(o) => if o.exit_success {
                r matches Ok(m) && m@ == o.stdout@
            } else {
                (r matches Err(m) && m@ == "Failed to install servicenow-mcp-server: "@
                    + o.stderr@)
            },
            Invocation::NotSpawned(e) => (r matches Err(m) && m@ == "Failed to run npm: "@ + e@),
        },
{
    match outcome {
        Invocation::Completed(o) => {
            if o.exit_success {
                Ok(o.stdout.clone())
            } else {
                Err(
                    String::from_str("Failed to install servicenow-mcp-server: ").concat(
                        o.stderr.as_str(),
                    ),
                )
            }
        },
        Invocation::NotSpawned(e) => {
            Err(String::from_str("Failed to run npm: ").concat(e.as_str()))
        },
    }
}

/// One step of the registration conversation, as reported back by the
/// caller that performs the external work.
pub enum RegisterEvent {
    /// Registration was requested; nothing external has run yet.
    Begin,
    /// The list-registrations probe finished (`None`: the assistant
    /// binary could not be resolved, so the probe never ran).
    ProbeDone(Option<Invocation>),
    /// The attempt to resolve the assistant binary finished, with its
    /// path or the locator's error text.
    AssistantResolved(Result<String, String>),
    /// The add-registration invocation finished.
    AddFinished(Invocation),
}

/// What the caller must do next in the registration conversation.
pub enum RegisterAction {
    /// Run the assistant's list-registrations probe.
    ProbeRegistrations,
    /// Resolve the assistant binary's path.
    ResolveAssistant,
    /// Run the given add-registration invocation.
    RunAdd(CommandSpec),
    /// Registration is over, with its result.
    Finished(Result<String, String>),
}

/// The registration decision procedure: from the latest event to the next
/// action. Registration starts with the idempotency pre-check — when the
/// listing probe already shows the integration, it finishes successfully
/// without ever requesting the mutating invocation. Otherwise the
/// assistant is resolved (a distinct, reported error when that fails) and
/// exactly one add-registration invocation is requested, whose captured
/// standard output or standard error becomes the result, verbatim.
pub fn register_mcp_server(credentials: &ServiceNowCredentials, event: &RegisterEvent) -> (r:
    RegisterAction)
    ensures
        match *event {
            RegisterEvent::Begin => r is ProbeRegistrations,
            RegisterEvent::ProbeDone(p) => if spec_registration_indicated(p) {
                (r matches RegisterAction::Finished(Ok(m)) && m@
                    == "ServiceNow MCP server already registered"@)
            } else {
                r is ResolveAssistant
            },
            RegisterEvent::AssistantResolved(res) => match res {
                Ok(path) => (r matches RegisterAction::RunAdd(c) && c.program@ == path@
                    && spec_registration_args(c.args@, *credentials)),
                Err(e) => (r matches RegisterAction::Finished(Err(m)) && m@
                    == "Assistant not found: "@ + e@),
            },
            RegisterEvent::AddFinished(inv) => match inv {
                Invocation::Completed(o) => if o.exit_success {
                    (r matches RegisterAction::Finished(Ok(m)) && m@ == o.stdout@)
                } else {
                    (r matches RegisterAction::Finished(Err(m)) && m@
                        == "Failed to register MCP server: "@ + o.stderr@)
                },
                Invocation::NotSpawned(e) => (r matches RegisterAction::Finished(Err(m)) && m@
                    == "Failed to register MCP server: "@ + e@),
            },
        },
        // Idempotence: a probe that already shows the integration never
        // leads to the mutating invocation.
        *event matches RegisterEvent::ProbeDone(p) && spec_registration_indicated(p) ==> !(r
            is RunAdd),
{
    match event {
        RegisterEvent::Begin => RegisterAction::ProbeRegistrations,
        RegisterEvent::ProbeDone(p) => {
            if check_mcp_server_registered(p) {
                RegisterAction::Finished(
                    Ok(String::from_str("ServiceNow MCP server already registered")),
                )
            } else {
                RegisterAction::ResolveAssistant
            }
        },
        RegisterEvent::AssistantResolved(res) => match res {
            Ok(path) => RegisterAction::RunAdd(registration_command(path.as_str(), credentials)),
            Err(e) => RegisterAction::Finished(
                Err(String::from_str("Assistant not found: ").concat(e.as_str())),
            ),
        },
        RegisterEvent::AddFinished(inv) => match inv {
            Invocation::Completed(o) => {
                if o.exit_success {
                    RegisterAction::Finished(Ok(o.stdout.clone()))
                } else {
                    RegisterAction::Finished(
                        Err(
                            String::from_str("Failed to register MCP server: ").concat(
                                o.stderr.as_str(),
                            ),
                        ),
                    )
                }
            },
            Invocation::NotSpawned(e) => {
                RegisterAction::Finished(
                    Err(String::from_str("Failed to register MCP server: ").concat(e.as_str())),
                )
            },
        },
    }
}

} // verus!
