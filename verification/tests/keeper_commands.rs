use dobby::commands::keeper::{
    default_dns_upstream_for, init_request, keeper_endpoint, pair_hint, plan, AuthProvider,
    InitArgs, KeeperCommand, KeeperPlan, ShowFingerprintArgs, StartArgs, KEEPER_GRPC_PORT,
};
use dobby::net::IpAddress;

fn ip(text: &str) -> IpAddress {
    match text.parse::<core::net::IpAddr>().unwrap() {
        core::net::IpAddr::V4(a) => IpAddress::V4(a.octets()),
        core::net::IpAddr::V6(a) => IpAddress::V6(a.segments()),
    }
}

#[test]
fn ipv4_endpoint_renders_without_brackets() {
    let ep = keeper_endpoint(IpAddress::V4([10, 0, 0, 50]));
    assert_eq!(ep, "10.0.0.50:8443");
}

#[test]
fn ipv6_endpoint_renders_with_brackets() {
    let ep = keeper_endpoint(ip("fd00::50"));
    assert_eq!(ep, "[fd00::50]:8443");
}

#[test]
fn ipv6_loopback_endpoint() {
    let ep = keeper_endpoint(IpAddress::V6([0, 0, 0, 0, 0, 0, 0, 1]));
    assert_eq!(ep, "[::1]:8443");
}

#[test]
fn dns_default_is_v4_for_v4_keeper() {
    let kip = IpAddress::V4([10, 0, 0, 50]);
    assert_eq!(default_dns_upstream_for(kip), ip("1.1.1.1"));
    assert_eq!(keeper_endpoint(default_dns_upstream_for(kip)), "1.1.1.1:8443");
}

#[test]
fn dns_default_is_v6_for_v6_keeper() {
    let kip = ip("fd00::50");
    assert_eq!(default_dns_upstream_for(kip), ip("2606:4700:4700::1111"));
    assert_eq!(
        keeper_endpoint(default_dns_upstream_for(kip)),
        "[2606:4700:4700::1111]:8443"
    );
}

#[test]
fn grpc_port_is_8443() {
    assert_eq!(KEEPER_GRPC_PORT, 8443);
}

fn init_args(dns_upstream: Option<IpAddress>) -> InitArgs {
    InitArgs {
        dir: "/etc/dobby".to_string(),
        keeper_ip: ip("fd00::50"),
        gateway: ip("fd00::1"),
        subnet: "fd00::/64".to_string(),
        static_range: "fd00::200-fd00::250".to_string(),
        bridge: "vmbr0".to_string(),
        dns_upstream,
        force: true,
    }
}

#[test]
fn init_request_fills_family_aware_dns_default() {
    let req = init_request(init_args(None));
    assert_eq!(req.dir, "/etc/dobby");
    assert_eq!(req.keeper_ip, ip("fd00::50"));
    assert_eq!(req.gateway, ip("fd00::1"));
    assert_eq!(req.dns_upstream, ip("2606:4700:4700::1111"));
    assert_eq!(req.subnet, "fd00::/64");
    assert_eq!(req.static_range, "fd00::200-fd00::250");
    assert_eq!(req.bridge, "vmbr0");
    assert!(req.force);
}

#[test]
fn init_request_keeps_explicit_dns() {
    let req = init_request(init_args(Some(ip("fd00::53"))));
    assert_eq!(req.dns_upstream, ip("fd00::53"));
}

#[test]
fn plan_routes_init_and_start() {
    match plan(KeeperCommand::Init(init_args(None))) {
        KeeperPlan::Init(req) => assert_eq!(req.dns_upstream, ip("2606:4700:4700::1111")),
        other => panic!("unexpected plan {other:?}"),
    }
    match plan(KeeperCommand::Start(StartArgs { dir: "/srv/dobby".to_string() })) {
        KeeperPlan::Start(dir) => assert_eq!(dir, "/srv/dobby"),
        other => panic!("unexpected plan {other:?}"),
    }
}

#[test]
fn plan_reports_unlanded_subcommands() {
    let cases = [
        (KeeperCommand::SetProxmoxToken, "unimplemented: dobby keeper set-proxmox-token lands in Phase 1"),
        (KeeperCommand::Auth(AuthProvider::Github), "unimplemented: dobby keeper auth github lands in Phase 1"),
        (KeeperCommand::RotateSecretsKey, "unimplemented: dobby keeper rotate-secrets-key lands in Phase 4"),
    ];
    for (cmd, expected) in cases {
        match plan(cmd) {
            KeeperPlan::Unimplemented(m) => assert_eq!(m, expected),
            other => panic!("unexpected plan {other:?}"),
        }
    }
}

#[test]
fn pair_hint_names_endpoint_fingerprint_and_token() {
    let line = pair_hint(IpAddress::V4([10, 0, 0, 50]), "ab12", "dby_boot_00");
    assert_eq!(
        line,
        "dobby pair 10.0.0.50:8443 --fingerprint ab12 --token dby_boot_00"
    );
}

#[test]
fn show_fingerprint_reads_the_state_dir() {
    match plan(KeeperCommand::ShowFingerprint(ShowFingerprintArgs { dir: "/etc/dobby".into() })) {
        KeeperPlan::ShowFingerprint(dir) => assert_eq!(dir, "/etc/dobby"),
        other => panic!("unexpected plan {other:?}"),
    }
}
