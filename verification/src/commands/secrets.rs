//! `dobby secrets ...` — per-app secret management with version history.

use vstd::prelude::*;

use super::{not_yet, not_yet_text};

verus! {

/// Subcommands of `dobby secrets`.
#[derive(Debug, Clone)]
pub enum SecretsCommand {
    /// Set (or bump the version of) a secret key. Format: `KEY=VALUE`.
    SetSecret(SetArgs),
    /// Bulk import from a `.env`-style file.
    Import(ImportArgs),
    /// List secret keys for an app (values masked).
    List(AppArgs),
    /// Delete a secret key (all versions).
    Delete(DeleteArgs),
    /// Print version history for a key.
    History(KeyArgs),
    /// Atomic pointer swap to a previous version.
    Rollback(RollbackArgs),
    /// Enforce `keep_versions` retention per key.
    Gc(GcArgs),
}

/// An app name.
#[derive(Debug, Clone)]
pub struct AppArgs {
    pub app: String,
}

/// Arguments of `dobby secrets set`.
#[derive(Debug, Clone)]
pub struct SetArgs {
    pub app: String,
    /// `KEY=VALUE` pair.
    pub kv: String,
}

/// Arguments of `dobby secrets import`.
#[derive(Debug, Clone)]
pub struct ImportArgs {
    pub app: String,
    /// Path to the `.env` file.
    pub file: String,
}

/// Arguments of `dobby secrets delete`.
#[derive(Debug, Clone)]
pub struct DeleteArgs {
    pub app: String,
    pub key: String,
}

/// Arguments of `dobby secrets history`.
#[derive(Debug, Clone)]
pub struct KeyArgs {
    pub app: String,
    pub key: String,
}

/// Arguments of `dobby secrets rollback`.
#[derive(Debug, Clone)]
pub struct RollbackArgs {
    pub app: String,
    pub key: String,
    /// Version to restore (e.g. `v2`).
    pub to: String,
}

/// Arguments of `dobby secrets gc`.
#[derive(Debug, Clone)]
pub struct GcArgs {
    pub app: String,
    /// Override of the default `keep_versions` from `keeper.toml`.
    pub keep: Option<u32>,
}

/// The command name that `run` reports for each subcommand.
pub open spec fn secrets_command_name(cmd: SecretsCommand) -> Seq<char> {
    match cmd {
        SecretsCommand::SetSecret(_) => "dobby secrets set"@,
        SecretsCommand::Import(_) => "dobby secrets import"@,
        SecretsCommand::List(_) => "dobby secrets list"@,
        SecretsCommand::Delete(_) => "dobby secrets delete"@,
        SecretsCommand::History(_) => "dobby secrets history"@,
        SecretsCommand::Rollback(_) => "dobby secrets rollback"@,
        SecretsCommand::Gc(_) => "dobby secrets gc"@,
    }
}

/// Runs `dobby secrets ...`: every subcommand lands in Phase 2.
pub fn run(cmd: SecretsCommand) -> (r: Result<(), String>)
    ensures
        r matches Err(m) && m@ == not_yet_text("Phase 2"@, secrets_command_name(cmd)),
{
    let phase = "Phase 2";
    match cmd {
        SecretsCommand::SetSecret(_) => Err(not_yet(phase, "dobby secrets set")),
        SecretsCommand::Import(_) => Err(not_yet(phase, "dobby secrets import")),
        SecretsCommand::List(_) => Err(not_yet(phase, "dobby secrets list")),
        SecretsCommand::Delete(_) => Err(not_yet(phase, "dobby secrets delete")),
        SecretsCommand::History(_) => Err(not_yet(phase, "dobby secrets history")),
        SecretsCommand::Rollback(_) => Err(not_yet(phase, "dobby secrets rollback")),
        SecretsCommand::Gc(_) => Err(not_yet(phase, "dobby secrets gc")),
    }
}

} // verus!
