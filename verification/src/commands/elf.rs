//! `dobby elf ...` — the Elf daemon inside a managed LXC.

use vstd::prelude::*;

use super::{not_yet, not_yet_text};

verus! {

/// Subcommands of `dobby elf`.
#[derive(Debug, Clone)]
pub enum ElfCommand {
    /// Start the Elf daemon.
    Start(StartArgs),
}

/// Arguments of `dobby elf start`.
#[derive(Debug, Clone)]
pub struct StartArgs {}

/// Runs `dobby elf ...`: `start` is not implemented before Phase 1 lands.
pub fn run(cmd: ElfCommand) -> (r: Result<(), String>)
    ensures
        r matches Err(m) && m@ == not_yet_text("Phase 1"@, "dobby elf start"@),
{
    match cmd {
        ElfCommand::Start(_) => Err(not_yet("Phase 1", "dobby elf start")),
    }
}

} // verus!
