//! The `dobby` command tree, and what each command comes to.
//!
//! The command line is parsed around this library into a [`Cli`];
//! [`dispatch`] decides what to do with it. Commands whose phase has not
//! landed come to their `unimplemented` message; `keeper` comes to its
//! plan; `pair` goes on with its arguments.

use vstd::prelude::*;

use crate::commands;
use crate::commands::keeper::{plan, KeeperPlan};
use crate::commands::pair::PairArgs;

verus! {

/// The parsed command line.
#[derive(Debug, Clone)]
pub struct Cli {
    /// The subcommand.
    pub command: Command,
}

/// Top-level subcommands.
#[derive(Debug, Clone)]
pub enum Command {
    /// Keeper daemon lifecycle, bootstrap, backup/restore, key rotation.
    Keeper(commands::keeper::KeeperCommand),
    /// Elf daemon lifecycle (runs inside managed LXCs).
    Elf(commands::elf::ElfCommand),
    /// Pair this workstation with a Keeper.
    Pair(commands::pair::PairArgs),
    /// Register a shared LXC as a dependency endpoint.
    Register(commands::register::RegisterArgs),
    /// Validate `dobby.toml`.
    Check(commands::check::CheckArgs),
    /// Create a managed LXC and deploy the app defined by `dobby.toml`.
    Init(commands::init::InitArgs),
    /// Destroy a managed LXC and remove its registry entries.
    Destroy(commands::destroy::DestroyArgs),
    /// Adjust a managed LXC's cores / memory / disk.
    Scale(commands::scale::ScaleArgs),
    /// Deploy a new artefact.
    Push(commands::push::PushArgs),
    /// Roll back one or all services to the previous version.
    Rollback(commands::rollback::RollbackArgs),
    /// Release watcher — start / stop / status.
    Watch(commands::watch::WatchCommand),
    /// Per-app secrets management.
    Secrets(commands::secrets::SecretsCommand),
    /// Fleet overview.
    Status(commands::status::StatusArgs),
    /// Exec a command inside an LXC, a service user, or an OCI container.
    Exec(commands::exec::ExecArgs),
    /// Stream logs.
    Logs(commands::logs::LogsArgs),
    /// Scoped API tokens for CI.
    Token(commands::token::TokenCommand),
    /// Self-update of the dobby binary.
    Update(commands::update::UpdateArgs),
    /// Resource metrics.
    Metrics(commands::metrics::MetricsArgs),
}

/// What a parsed command line comes to.
#[derive(Debug, Clone)]
pub enum Dispatch {
    /// Fail with this message.
    Fail(String),
    /// Carry out this Keeper plan.
    Keeper(KeeperPlan),
    /// Pair with these arguments.
    Pair(PairArgs),
}

/// The message of the command, if it has not landed yet.
pub open spec fn pending_message(c: Command) -> Option<Seq<char>> {
    match c {
        Command::Keeper(_) => None,
        Command::Pair(_) => None,
        Command::Elf(_) => Some(commands::not_yet_text("Phase 1"@, "dobby elf start"@)),
        Command::Register(_) => Some(commands::not_yet_text("Phase 1"@, "dobby register"@)),
        Command::Check(_) => Some(commands::not_yet_text("Phase 2"@, "dobby check"@)),
        Command::Init(_) => Some(commands::not_yet_text("Phase 2"@, "dobby init"@)),
        Command::Destroy(_) => Some(commands::not_yet_text("Phase 2"@, "dobby destroy"@)),
        Command::Scale(_) => Some(commands::not_yet_text("Phase 3c"@, "dobby scale"@)),
        Command::Push(_) => Some(commands::not_yet_text("Phase 2"@, "dobby push"@)),
        Command::Rollback(_) => Some(commands::not_yet_text("Phase 2"@, "dobby rollback"@)),
        Command::Watch(w) => Some(
            commands::not_yet_text("Phase 4"@, commands::watch::watch_command_name(w)),
        ),
        Command::Secrets(s) => Some(
            commands::not_yet_text("Phase 2"@, commands::secrets::secrets_command_name(s)),
        ),
        Command::Status(_) => Some(commands::not_yet_text("Phase 1"@, "dobby status"@)),
        Command::Exec(_) => Some(commands::not_yet_text("Phase 4"@, "dobby exec"@)),
        Command::Logs(_) => Some(commands::not_yet_text("Phase 4"@, "dobby logs"@)),
        Command::Token(t) => Some(
            commands::not_yet_text("Phase 4"@, commands::token::token_command_name(t)),
        ),
        Command::Update(_) => Some(commands::not_yet_text("Phase 7"@, "dobby update"@)),
        Command::Metrics(_) => Some(commands::not_yet_text("Phase 5"@, "dobby metrics"@)),
    }
}

/// Turns a handler's result into what dispatch reports.
fn failure(r: Result<(), String>) -> (d: Dispatch)
    ensures
        r matches Err(m) ==> d matches Dispatch::Fail(f) && f@ == m@,
{
    match r {
        Err(m) => Dispatch::Fail(m),
        Ok(()) => Dispatch::Fail(String::new()),
    }
}

/// Decides what a parsed command line comes to.
pub fn dispatch(cli: Cli) -> (d: Dispatch)
    ensures
        pending_message(cli.command) matches Some(m) ==> (d matches Dispatch::Fail(f) && f@ == m),
        cli.command matches Command::Keeper(k) ==> (d matches Dispatch::Keeper(p) && (
        k matches commands::keeper::KeeperCommand::Init(a) ==> p == KeeperPlan::Init(
            commands::keeper::init_request_of(a),
        )) && (k matches commands::keeper::KeeperCommand::Start(a) ==> p == KeeperPlan::Start(a.dir))
            && (k matches commands::keeper::KeeperCommand::ShowFingerprint(a) ==> p
            == KeeperPlan::ShowFingerprint(a.dir))
            && (commands::keeper::pending(k) matches Some((phase, what)) ==> (p matches KeeperPlan::Unimplemented(
            m,
        ) && m@ == commands::not_yet_text(phase, what)))),
        cli.command matches Command::Pair(a) ==> d == Dispatch::Pair(a),
{
    match cli.command {
        Command::Keeper(cmd) => Dispatch::Keeper(plan(cmd)),
        Command::Elf(cmd) => failure(commands::elf::run(cmd)),
        Command::Pair(args) => Dispatch::Pair(args),
        Command::Register(args) => failure(commands::register::run(args)),
        Command::Check(args) => failure(commands::check::run(args)),
        Command::Init(args) => failure(commands::init::run(args)),
        Command::Destroy(args) => failure(commands::destroy::run(args)),
        Command::Scale(args) => failure(commands::scale::run(args)),
        Command::Push(args) => failure(commands::push::run(args)),
        Command::Rollback(args) => failure(commands::rollback::run(args)),
        Command::Watch(cmd) => failure(commands::watch::run(cmd)),
        Command::Secrets(cmd) => failure(commands::secrets::run(cmd)),
        Command::Status(args) => failure(commands::status::run(args)),
        Command::Exec(args) => failure(commands::exec::run(args)),
        Command::Logs(args) => failure(commands::logs::run(args)),
        Command::Token(cmd) => failure(commands::token::run(cmd)),
        Command::Update(args) => failure(commands::update::run(args)),
        Command::Metrics(args) => failure(commands::metrics::run(args)),
    }
}

} // verus!
