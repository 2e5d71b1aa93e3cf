//! `dobby rollback` — swap symlinks back to the previous version.

use vstd::prelude::*;

use super::{not_yet, not_yet_text};

verus! {

/// Arguments of `dobby rollback`.
#[derive(Debug, Clone)]
pub struct RollbackArgs {
    /// App name.
    pub name: String,
    /// Restrict rollback to a single service; otherwise all services.
    pub service: Option<String>,
}

/// Runs `dobby rollback`: not implemented before Phase 2.
pub fn run(_args: RollbackArgs) -> (r: Result<(), String>)
    ensures
        r matches Err(m) && m@ == not_yet_text("Phase 2"@, "dobby rollback"@),
{
    Err(not_yet("Phase 2", "dobby rollback"))
}

} // verus!
