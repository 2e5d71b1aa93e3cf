//! `dobby push` — deploy an artefact from a GitHub Release tag or a local file.

use vstd::prelude::*;

use super::{not_yet, not_yet_text};

verus! {

/// Arguments of `dobby push`; exactly one of `release` and `artifact`.
#[derive(Debug, Clone)]
pub struct PushArgs {
    /// App name.
    pub name: String,
    /// GitHub Release tag to deploy from.
    pub release: Option<String>,
    /// Local artefact path to upload.
    pub artifact: Option<String>,
    /// Restrict deploy to a single service.
    pub service: Option<String>,
}

/// Runs `dobby push`: not implemented before Phase 2.
pub fn run(_args: PushArgs) -> (r: Result<(), String>)
    ensures
        r matches Err(m) && m@ == not_yet_text("Phase 2"@, "dobby push"@),
{
    Err(not_yet("Phase 2", "dobby push"))
}

} // verus!
