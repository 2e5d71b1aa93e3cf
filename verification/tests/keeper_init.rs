use dobby::keeper_config::default_dns_upstream;
use dobby::keeper_init::{
    build_config, init_files, missing_ancestors, parents_to_sync, target_dir_action,
    validate_network_families, InitError, Request, TargetDirAction, TargetDirState, PUBLIC_MODE,
    SECRET_MODE,
};
use dobby::net::IpAddress;
use dobby::path::ancestors;
use dobby::state::{decimal_string, staging_path, tmp_name, AtomicWriteError};
use dobby::tls::TlsArtifacts;

fn ip(text: &str) -> IpAddress {
    match text.parse::<core::net::IpAddr>().unwrap() {
        core::net::IpAddr::V4(a) => IpAddress::V4(a.octets()),
        core::net::IpAddr::V6(a) => IpAddress::V6(a.segments()),
    }
}

fn v4_request() -> Request {
    Request {
        dir: "/etc/dobby".to_string(),
        keeper_ip: ip("10.0.0.50"),
        gateway: ip("10.0.0.1"),
        dns_upstream: ip("1.1.1.1"),
        subnet: "10.0.0.0/24".to_string(),
        static_range: "10.0.0.200-10.0.0.250".to_string(),
        bridge: "vmbr0".to_string(),
        force: false,
    }
}

fn family_mismatch(r: Result<(), InitError>) -> (String, String, String, String) {
    match r {
        Err(InitError::FamilyMismatch { field, field_value, keeper_ip_family, field_family }) => (
            field.to_string(),
            field_value,
            keeper_ip_family.to_string(),
            field_family.to_string(),
        ),
        other => panic!("expected a family mismatch, got {other:?}"),
    }
}

fn malformed(r: Result<(), InitError>) -> (String, String, String) {
    match r {
        Err(InitError::MalformedNetworkField { field, value, expected }) => {
            (field.to_string(), value, expected.to_string())
        }
        other => panic!("expected a malformed field, got {other:?}"),
    }
}

#[test]
fn dns_upstream_defaults_to_cloudflare() {
    assert_eq!(default_dns_upstream(), IpAddress::V4([1, 1, 1, 1]));
}

#[test]
fn well_formed_v4_request_validates() {
    validate_network_families(&v4_request()).unwrap();
    let mut req = v4_request();
    req.static_range = "10.0.0.200 - 10.0.0.250".to_string();
    validate_network_families(&req).unwrap();
}

#[test]
fn well_formed_v6_request_validates() {
    let req = Request {
        keeper_ip: ip("fd00::50"),
        gateway: ip("fd00::1"),
        dns_upstream: ip("2606:4700:4700::1111"),
        subnet: "fd00::/64".to_string(),
        static_range: "fd00::200-fd00::250".to_string(),
        ..v4_request()
    };
    validate_network_families(&req).unwrap();
}

#[test]
fn gateway_and_dns_families_are_checked_first() {
    let mut req = v4_request();
    req.gateway = ip("fd00::1");
    req.subnet = "garbage".to_string();
    assert_eq!(
        family_mismatch(validate_network_families(&req)),
        ("gateway".into(), "fd00::1".into(), "IPv4".into(), "IPv6".into())
    );
    let mut req = v4_request();
    req.dns_upstream = ip("2606:4700:4700::1111");
    assert_eq!(
        family_mismatch(validate_network_families(&req)),
        (
            "dns_upstream".into(),
            "2606:4700:4700::1111".into(),
            "IPv4".into(),
            "IPv6".into()
        )
    );
}

#[test]
fn subnet_errors() {
    let cases = [
        ("10.0.0.0", "CIDR (\"<ip>/<prefix>\")"),
        ("10.0.0/24", "CIDR with parseable IP"),
        ("10.0.0.0/abc", "CIDR with numeric prefix (0-32 for v4, 0-128 for v6)"),
        ("10.0.0.0/256", "CIDR with numeric prefix (0-32 for v4, 0-128 for v6)"),
        ("10.0.0.0/33", "CIDR with v4 prefix in 0-32"),
    ];
    for (subnet, expected) in cases {
        let mut req = v4_request();
        req.subnet = subnet.to_string();
        assert_eq!(
            malformed(validate_network_families(&req)),
            ("subnet".into(), subnet.into(), expected.into())
        );
    }
    let mut req = v4_request();
    req.subnet = "fd00::/64".to_string();
    assert_eq!(
        family_mismatch(validate_network_families(&req)),
        ("subnet".into(), "fd00::".into(), "IPv4".into(), "IPv6".into())
    );
    let req = Request {
        keeper_ip: ip("fd00::50"),
        gateway: ip("fd00::1"),
        dns_upstream: ip("fd00::53"),
        subnet: "fd00::/129".to_string(),
        ..v4_request()
    };
    assert_eq!(
        malformed(validate_network_families(&req)),
        ("subnet".into(), "fd00::/129".into(), "CIDR with v6 prefix in 0-128".into())
    );
}

#[test]
fn static_range_errors() {
    let mut req = v4_request();
    req.static_range = "10.0.0.200".to_string();
    assert_eq!(
        malformed(validate_network_families(&req)),
        (
            "static_range".into(),
            "10.0.0.200".into(),
            "range (\"<first-ip>-<last-ip>\")".into()
        )
    );
    let mut req = v4_request();
    req.static_range = "10.0.0.200-nope".to_string();
    assert_eq!(
        malformed(validate_network_families(&req)),
        (
            "static_range".into(),
            "10.0.0.200-nope".into(),
            "range with parseable IPs".into()
        )
    );
    let mut req = v4_request();
    req.static_range = "fd00::200-10.0.0.250".to_string();
    assert_eq!(
        family_mismatch(validate_network_families(&req)),
        ("static_range".into(), "fd00::200".into(), "IPv4".into(), "IPv6".into())
    );
}

#[test]
fn build_config_copies_network_fields() {
    let c = build_config(&v4_request());
    assert_eq!(c.network.bridge, "vmbr0");
    assert_eq!(c.network.subnet, "10.0.0.0/24");
    assert_eq!(c.network.static_range, "10.0.0.200-10.0.0.250");
    assert_eq!(c.network.keeper_ip, ip("10.0.0.50"));
    assert_eq!(c.network.gateway, ip("10.0.0.1"));
    assert_eq!(c.network.dns_upstream, ip("1.1.1.1"));
}

#[test]
fn target_dir_decisions() {
    let dir = "/etc/dobby".to_string();
    assert!(matches!(
        target_dir_action(&dir, TargetDirState::Missing, false),
        Ok(TargetDirAction::Create)
    ));
    assert!(matches!(
        target_dir_action(&dir, TargetDirState::Exists { has_entry: false }, false),
        Ok(TargetDirAction::UseExisting)
    ));
    assert!(matches!(
        target_dir_action(&dir, TargetDirState::Exists { has_entry: true }, true),
        Ok(TargetDirAction::UseExisting)
    ));
    match target_dir_action(&dir, TargetDirState::Exists { has_entry: true }, false) {
        Err(InitError::NotEmpty(d)) => assert_eq!(d, "/etc/dobby"),
        other => panic!("expected NotEmpty, got {other:?}"),
    }
}

fn artifacts() -> TlsArtifacts {
    TlsArtifacts {
        ca_cert_pem: "ca-cert".into(),
        ca_key_pem: "ca-key".into(),
        host_cert_pem: "host-cert".into(),
        host_key_pem: "host-key".into(),
        host_fingerprint_sha256: "00".repeat(32),
    }
}

#[test]
fn init_files_layout_and_modes() {
    let token = "dby_boot_000102030405060708090a0b0c0d0e0f1011121314151617";
    let files = init_files("[network]\n".to_string(), artifacts(), token).unwrap();
    let layout: Vec<(&str, u32)> = files.iter().map(|f| (f.relative_path, f.mode)).collect();
    assert_eq!(
        layout,
        vec![
            ("keeper.toml", 0o644),
            ("tls/ca.crt", 0o644),
            ("tls/host.crt", 0o644),
            ("tls/ca.key", 0o600),
            ("tls/host.key", 0o600),
            ("secrets/bootstrap_token", 0o600),
        ]
    );
    assert_eq!(PUBLIC_MODE, 0o644);
    assert_eq!(SECRET_MODE, 0o600);
    assert_eq!(files[0].contents, "[network]\n");
    assert_eq!(files[4].contents, "host-key");
    // the token itself never lands on disk, only its hash
    assert_eq!(
        files[5].contents,
        dobby::bootstrap_token::hash_for_storage(token).unwrap()
    );
    assert!(dobby::bootstrap_token::verify_against_hash(token, &files[5].contents).unwrap());
}

#[test]
fn init_files_rejects_malformed_token() {
    assert!(matches!(
        init_files(String::new(), artifacts(), "not-a-token"),
        Err(InitError::TokenFormat(_))
    ));
}

#[test]
fn ancestors_and_missing_ancestors() {
    let chain = ancestors("/var/lib/dobby/state");
    assert_eq!(chain, vec!["/var/lib/dobby/state", "/var/lib/dobby", "/var/lib", "/var", "/"]);
    let exists = vec![false, false, true, true, true];
    let missing = missing_ancestors(&chain, &exists);
    assert_eq!(missing, vec!["/var/lib/dobby/state", "/var/lib/dobby"]);
    assert_eq!(parents_to_sync(&missing), vec!["/var/lib", "/var/lib/dobby"]);
}

#[test]
fn relative_ancestors_stop_before_empty_parent() {
    let chain = ancestors("a/b");
    assert_eq!(chain, vec!["a/b", "a"]);
    let missing = missing_ancestors(&chain, &vec![false, false]);
    assert_eq!(missing, chain);
    assert_eq!(parents_to_sync(&missing), vec!["a"]);
    assert!(ancestors("").is_empty());
    assert!(missing_ancestors(&chain, &vec![true, false]).is_empty());
}

#[test]
fn init_contents_hash_the_printed_token() {
    let req = v4_request();
    let (files, outcome) = dobby::keeper_init::init_contents(&req, "[network]\n".into()).unwrap();
    assert_eq!(files.len(), 6);
    assert!(dobby::bootstrap_token::validate_token(&outcome.bootstrap_token).is_ok());
    assert_eq!(files[5].relative_path, "secrets/bootstrap_token");
    assert!(dobby::bootstrap_token::verify_against_hash(&outcome.bootstrap_token, &files[5].contents).unwrap());
    assert_ne!(files[5].contents, outcome.bootstrap_token);
    assert_eq!(
        dobby::tls::fingerprint_sha256_hex_from_pem(files[2].contents.as_bytes()).unwrap(),
        outcome.tls_fingerprint_sha256
    );
}

#[test]
fn staging_path_sits_next_to_target() {
    assert_eq!(decimal_string(0), "0");
    assert_eq!(decimal_string(1234567890), "1234567890");
    assert_eq!(decimal_string(u128::MAX), u128::MAX.to_string());
    assert_eq!(tmp_name("keeper.toml", 42, 7), ".keeper.toml.tmp-42-7");
    assert_eq!(
        staging_path("/etc/dobby/keeper.toml", 42, 7).unwrap(),
        "/etc/dobby/.keeper.toml.tmp-42-7"
    );
    assert!(matches!(staging_path("foo", 1, 1), Err(AtomicWriteError::NoParent(p)) if p == "foo"));
    assert!(matches!(staging_path("/", 1, 1), Err(AtomicWriteError::NoParent(_))));
    assert!(matches!(staging_path("/etc/..", 1, 1), Err(AtomicWriteError::NoFileName(p)) if p == "/etc/.."));
}

#[test]
fn init_directory_modes() {
    let dirs = dobby::keeper_init::init_directories();
    let layout: Vec<(&str, u32)> = dirs.iter().map(|d| (d.relative_path, d.mode)).collect();
    assert_eq!(layout, vec![("tls", 0o755), ("secrets", 0o700)]);
    assert_eq!(dobby::keeper_init::PUBLIC_DIR_MODE, 0o755);
}
