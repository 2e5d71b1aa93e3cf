//! `dobby metrics` — resource utilisation dump.

use vstd::prelude::*;

use super::{not_yet, not_yet_text};

verus! {

/// Arguments of `dobby metrics`.
#[derive(Debug, Clone)]
pub struct MetricsArgs {
    /// Limit to a specific app.
    pub name: Option<String>,
}

/// Runs `dobby metrics`: not implemented before Phase 5.
pub fn run(_args: MetricsArgs) -> (r: Result<(), String>)
    ensures
        r matches Err(m) && m@ == not_yet_text("Phase 5"@, "dobby metrics"@),
{
    Err(not_yet("Phase 5", "dobby metrics"))
}

} // verus!
