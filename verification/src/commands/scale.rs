//! `dobby scale` — adjust cores / memory / disk of a managed LXC.

use vstd::prelude::*;

use super::{not_yet, not_yet_text};

verus! {

/// Arguments of `dobby scale`.
#[derive(Debug, Clone)]
pub struct ScaleArgs {
    /// App name.
    pub name: String,
    /// New memory limit in MiB.
    pub memory: Option<u32>,
    /// New CPU core count.
    pub cores: Option<u32>,
    /// New root disk size in GiB.
    pub disk: Option<u32>,
}

/// Runs `dobby scale`: not implemented before Phase 3c.
pub fn run(_args: ScaleArgs) -> (r: Result<(), String>)
    ensures
        r matches Err(m) && m@ == not_yet_text("Phase 3c"@, "dobby scale"@),
{
    Err(not_yet("Phase 3c", "dobby scale"))
}

} // verus!
