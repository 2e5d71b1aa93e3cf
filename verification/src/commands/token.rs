//! `dobby token ...` — scoped CI tokens.

use vstd::prelude::*;

use super::{not_yet, not_yet_text};

verus! {

/// Subcommands of `dobby token`.
#[derive(Debug, Clone)]
pub enum TokenCommand {
    /// Create a new scoped Bearer token.
    Create(CreateArgs),
    /// List existing tokens (fingerprints only).
    List,
    /// Revoke a token by fingerprint or label.
    Revoke(RevokeArgs),
}

/// Arguments of `dobby token create`.
#[derive(Debug, Clone)]
pub struct CreateArgs {
    /// Human-readable label.
    pub name: String,
    /// Token scope (e.g. `push:mm-eh`, `status`, `watch`).
    pub scope: String,
}

/// Arguments of `dobby token revoke`.
#[derive(Debug, Clone)]
pub struct RevokeArgs {
    pub name_or_fingerprint: String,
}

/// The command name that `run` reports for each subcommand.
pub open spec fn token_command_name(cmd: TokenCommand) -> Seq<char> {
    match cmd {
        TokenCommand::Create(_) => "dobby token create"@,
        TokenCommand::List => "dobby token list"@,
        TokenCommand::Revoke(_) => "dobby token revoke"@,
    }
}

/// Runs `dobby token ...`: every subcommand lands in Phase 4.
pub fn run(cmd: TokenCommand) -> (r: Result<(), String>)
    ensures
        r matches Err(m) && m@ == not_yet_text("Phase 4"@, token_command_name(cmd)),
{
    let phase = "Phase 4";
    match cmd {
        TokenCommand::Create(_) => Err(not_yet(phase, "dobby token create")),
        TokenCommand::List => Err(not_yet(phase, "dobby token list")),
        TokenCommand::Revoke(_) => Err(not_yet(phase, "dobby token revoke")),
    }
}

} // verus!
