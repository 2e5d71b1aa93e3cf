//! `dobby status` — fleet overview with per-app health.

use vstd::prelude::*;

use super::{not_yet, not_yet_text};

verus! {

/// Arguments of `dobby status`.
#[derive(Debug, Clone)]
pub struct StatusArgs {
    /// Limit to a specific app.
    pub name: Option<String>,
}

/// Runs `dobby status`: not implemented before Phase 1.
pub fn run(_args: StatusArgs) -> (r: Result<(), String>)
    ensures
        r matches Err(m) && m@ == not_yet_text("Phase 1"@, "dobby status"@),
{
    Err(not_yet("Phase 1", "dobby status"))
}

} // verus!
