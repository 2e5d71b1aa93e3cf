//! `dobby update` — self-update of the dobby binary.

use vstd::prelude::*;

use super::{not_yet, not_yet_text};

verus! {

/// Arguments of `dobby update`; at most one mode.
#[derive(Debug, Clone)]
pub struct UpdateArgs {
    /// Resume auto-updates after a critical-state freeze.
    pub resume: bool,
    /// Trigger the interactive migration path for flagged releases.
    pub interactive: bool,
    /// Roll back this binary to the previous version.
    pub rollback_self: bool,
}

/// Runs `dobby update`: not implemented before Phase 7.
pub fn run(_args: UpdateArgs) -> (r: Result<(), String>)
    ensures
        r matches Err(m) && m@ == not_yet_text("Phase 7"@, "dobby update"@),
{
    Err(not_yet("Phase 7", "dobby update"))
}

} // verus!
