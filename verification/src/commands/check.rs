//! `dobby check` — validate `dobby.toml` locally or against Keeper state.

use vstd::prelude::*;

use super::{not_yet, not_yet_text};

verus! {

/// Arguments of `dobby check`.
#[derive(Debug, Clone)]
pub struct CheckArgs {
    /// Also validate against Keeper (duplicate app name, `${VAR}` targets).
    pub remote: bool,
    /// Machine-readable JSON output for CI.
    pub json: bool,
}

/// Runs `dobby check`: not implemented before Phase 2.
pub fn run(_args: CheckArgs) -> (r: Result<(), String>)
    ensures
        r matches Err(m) && m@ == not_yet_text("Phase 2"@, "dobby check"@),
{
    Err(not_yet("Phase 2", "dobby check"))
}

} // verus!
