//! `dobby register` — register an existing LXC as a dependency endpoint.

use vstd::prelude::*;

use super::{not_yet, not_yet_text};

verus! {

/// Arguments of `dobby register`.
#[derive(Debug, Clone)]
pub struct RegisterArgs {
    /// Short name used for DNS (`<name>.dobby`).
    pub name: String,
    /// Proxmox VMID of the existing LXC.
    pub vmid: u32,
    /// Service port (informational).
    pub port: Option<u16>,
}

/// Runs `dobby register`: not implemented before Phase 1.
pub fn run(_args: RegisterArgs) -> (r: Result<(), String>)
    ensures
        r matches Err(m) && m@ == not_yet_text("Phase 1"@, "dobby register"@),
{
    Err(not_yet("Phase 1", "dobby register"))
}

} // verus!
