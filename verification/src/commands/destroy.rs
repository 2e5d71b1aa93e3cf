//! `dobby destroy` — tear down a managed LXC and its registry, DNS and watcher state.

use vstd::prelude::*;

use super::{not_yet, not_yet_text};

verus! {

/// Arguments of `dobby destroy`.
#[derive(Debug, Clone)]
pub struct DestroyArgs {
    /// App name.
    pub name: String,
    /// Skip the confirmation prompt.
    pub yes: bool,
}

/// Runs `dobby destroy`: not implemented before Phase 2.
pub fn run(_args: DestroyArgs) -> (r: Result<(), String>)
    ensures
        r matches Err(m) && m@ == not_yet_text("Phase 2"@, "dobby destroy"@),
{
    Err(not_yet("Phase 2", "dobby destroy"))
}

} // verus!
