//! `dobby watch` — operational control over an app's release watcher.

use vstd::prelude::*;

use super::{not_yet, not_yet_text};

verus! {

/// Subcommands of `dobby watch`.
#[derive(Debug, Clone)]
pub enum WatchCommand {
    /// Start the watcher for `<name>`.
    Start(AppArgs),
    /// Stop the watcher.
    Stop(AppArgs),
    /// Print the watcher state.
    Status(AppArgs),
}

/// The app a watch subcommand targets.
#[derive(Debug, Clone)]
pub struct AppArgs {
    /// App name.
    pub name: String,
}

/// The command name that `run` reports for each subcommand.
pub open spec fn watch_command_name(cmd: WatchCommand) -> Seq<char> {
    match cmd {
        WatchCommand::Start(_) => "dobby watch start"@,
        WatchCommand::Stop(_) => "dobby watch stop"@,
        WatchCommand::Status(_) => "dobby watch status"@,
    }
}

/// Runs `dobby watch ...`: every subcommand lands in Phase 4.
pub fn run(cmd: WatchCommand) -> (r: Result<(), String>)
    ensures
        r matches Err(m) && m@ == not_yet_text("Phase 4"@, watch_command_name(cmd)),
{
    let phase = "Phase 4";
    match cmd {
        WatchCommand::Start(_) => Err(not_yet(phase, "dobby watch start")),
        WatchCommand::Stop(_) => Err(not_yet(phase, "dobby watch stop")),
        WatchCommand::Status(_) => Err(not_yet(phase, "dobby watch status")),
    }
}

} // verus!
