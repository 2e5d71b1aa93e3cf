//! `dobby init` — create a managed LXC and deploy the app defined by `dobby.toml`.

use vstd::prelude::*;

use super::{not_yet, not_yet_text};

verus! {

/// Arguments of `dobby init`.
#[derive(Debug, Clone)]
pub struct InitArgs {
    /// Path to the manifest (default: `dobby.toml`).
    pub file: String,
    /// Skip the confirmation prompt.
    pub yes: bool,
    /// Force a specific Proxmox VMID (default: first free from 200+).
    pub vmid: Option<u32>,
}

/// Runs `dobby init`: not implemented before Phase 2.
pub fn run(_args: InitArgs) -> (r: Result<(), String>)
    ensures
        r matches Err(m) && m@ == not_yet_text("Phase 2"@, "dobby init"@),
{
    Err(not_yet("Phase 2", "dobby init"))
}

} // verus!
