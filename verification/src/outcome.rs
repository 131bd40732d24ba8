//! Model of one external subprocess invocation as seen by the decision
//! logic: either the process could not be spawned at all, or it ran to
//! completion with an exit status and captured output.

use vstd::prelude::*;

verus! {

/// Captured result of a subprocess that ran to completion: whether it
/// exited successfully, and its standard output and standard error,
/// decoded to text.
#[derive(Debug, Clone)]
pub struct CmdOutput {
    pub exit_success: bool,
    pub stdout: String,
    pub stderr: String,
}

/// Outcome of attempting one subprocess invocation. `NotSpawned` carries
/// the operating-system error text from the failed spawn attempt.
#[derive(Debug, Clone)]
pub enum Invocation {
    NotSpawned(String),
    Completed(CmdOutput),
}

/// A probe interpreted purely by exit status: it succeeded exactly when
/// the process was spawned and exited successfully. Any failure to spawn
/// or a non-zero exit degrades to `false`.
pub open spec fn spec_probe_ok(p: Invocation) -> bool {
    match p {
        Invocation::Completed(o) => o.exit_success,
        Invocation::NotSpawned(_) => false,
    }
}

/// Exit-status interpretation of a probe outcome.
pub fn probe_ok(p: &Invocation) -> (r: bool)
    ensures
        r == spec_probe_ok(*p),
{
    match p {
        Invocation::Completed(o) => o.exit_success,
        Invocation::NotSpawned(_) => false,
    }
}

} // verus!
