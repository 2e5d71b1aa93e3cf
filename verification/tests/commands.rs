use dobby::cli::{dispatch, Cli, Command, Dispatch};
use dobby::commands::keeper::{KeeperCommand, KeeperPlan, StartArgs};
use dobby::commands::pair::PairArgs;
use dobby::commands::{check, elf, logs, not_yet, scale, secrets, token, update, watch};

fn fail_message(c: Command) -> String {
    match dispatch(Cli { command: c }) {
        Dispatch::Fail(m) => m,
        other => panic!("expected a failure, got {other:?}"),
    }
}

#[test]
fn not_yet_formats_phase_and_command() {
    assert_eq!(not_yet("Phase 9", "dobby x"), "unimplemented: dobby x lands in Phase 9");
}

#[test]
fn unlanded_commands_report_their_phase() {
    assert_eq!(
        fail_message(Command::Elf(elf::ElfCommand::Start(elf::StartArgs {}))),
        "unimplemented: dobby elf start lands in Phase 1"
    );
    assert_eq!(
        fail_message(Command::Check(check::CheckArgs { remote: false, json: false })),
        "unimplemented: dobby check lands in Phase 2"
    );
    assert_eq!(
        fail_message(Command::Update(update::UpdateArgs { resume: false, interactive: false, rollback_self: false })),
        "unimplemented: dobby update lands in Phase 7"
    );
    assert_eq!(
        fail_message(Command::Token(token::TokenCommand::List)),
        "unimplemented: dobby token list lands in Phase 4"
    );
    assert_eq!(
        fail_message(Command::Watch(watch::WatchCommand::Stop(watch::AppArgs { name: "x".into() }))),
        "unimplemented: dobby watch stop lands in Phase 4"
    );
    assert_eq!(
        fail_message(Command::Secrets(secrets::SecretsCommand::Gc(secrets::GcArgs {
            app: "x".into(),
            keep: Some(3),
        }))),
        "unimplemented: dobby secrets gc lands in Phase 2"
    );
}

#[test]
fn handlers_report_their_phase() {
    assert_eq!(
        scale::run(scale::ScaleArgs { name: "x".into(), cores: None, memory: None, disk: None }),
        Err("unimplemented: dobby scale lands in Phase 3c".to_string())
    );
    let logs_args = logs::LogsArgs {
        name: None,
        service: None,
        follow: false,
        lines: None,
        since: None,
        level: None,
        host: true,
        audit: false,
        app: None,
        event_type: None,
    };
    assert_eq!(
        logs::run(logs_args),
        Err("unimplemented: dobby logs lands in Phase 4".to_string())
    );
}

#[test]
fn keeper_and_pair_are_routed() {
    match dispatch(Cli {
        command: Command::Keeper(KeeperCommand::Start(StartArgs { dir: "/etc/dobby".into() })),
    }) {
        Dispatch::Keeper(KeeperPlan::Start(dir)) => assert_eq!(dir, "/etc/dobby"),
        other => panic!("unexpected dispatch {other:?}"),
    }
    let args = PairArgs { address: Some("k:1".into()), token: None, fingerprint: None };
    match dispatch(Cli { command: Command::Pair(args) }) {
        Dispatch::Pair(a) => assert_eq!(a.address.as_deref(), Some("k:1")),
        other => panic!("unexpected dispatch {other:?}"),
    }
}
