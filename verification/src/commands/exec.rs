//! `dobby exec` — run a command inside an LXC, a service user, or an OCI container.

use vstd::prelude::*;

use super::{not_yet, not_yet_text};

verus! {

/// Arguments of `dobby exec`.
#[derive(Debug, Clone)]
pub struct ExecArgs {
    /// App name.
    pub name: String,
    /// Target a specific service (required to enter a container).
    pub service: Option<String>,
    /// Command and arguments to execute.
    pub command: Vec<String>,
}

/// Runs `dobby exec`: not implemented before Phase 4.
pub fn run(_args: ExecArgs) -> (r: Result<(), String>)
    ensures
        r matches Err(m) && m@ == not_yet_text("Phase 4"@, "dobby exec"@),
{
    Err(not_yet("Phase 4", "dobby exec"))
}

} // verus!
