//! `dobby logs` — stream app / host / audit logs.

use vstd::prelude::*;

use super::{not_yet, not_yet_text};

verus! {

/// Arguments of `dobby logs`.
#[derive(Debug, Clone)]
pub struct LogsArgs {
    /// App name (omit with `--host` or `--audit`).
    pub name: Option<String>,
    /// Target a specific service.
    pub service: Option<String>,
    /// Follow the log stream.
    pub follow: bool,
    /// Number of lines to show before following.
    pub lines: Option<u32>,
    /// ISO-8601 timestamp lower bound.
    pub since: Option<String>,
    /// Log level filter.
    pub level: Option<String>,
    /// Stream Keeper logs.
    pub host: bool,
    /// Stream the audit log.
    pub audit: bool,
    /// Filter audit events to an app.
    pub app: Option<String>,
    /// Filter audit events to an event type.
    pub event_type: Option<String>,
}

/// Runs `dobby logs`: not implemented before Phase 4.
pub fn run(_args: LogsArgs) -> (r: Result<(), String>)
    ensures
        r matches Err(m) && m@ == not_yet_text("Phase 4"@, "dobby logs"@),
{
    Err(not_yet("Phase 4", "dobby logs"))
}

} // verus!
