use dobby::auth::WorkstationKeypair;
use dobby::commands::pair::{
    build_pair_request, certificate_matches_pin, check_args, check_pair_response, pairing_record,
    parse_endpoint, KeeperEndpoint, PairArgs, PairError,
};
use dobby::keeper_service::{
    KeeperServiceImpl, PairAction, PairEvent, PairPhase, PairResponse, PairState,
};
use dobby::tls::TlsError;

const FP_HEX: &str = "0707070707070707070707070707070707070707070707070707070707070707";

#[test]
fn endpoint_from_host_port() {
    let ep = parse_endpoint(Some("10.0.0.50:8443")).unwrap();
    assert_eq!(
        ep,
        KeeperEndpoint { address: "10.0.0.50:8443".into(), host: "10.0.0.50".into(), port: 8443 }
    );
    let ep = parse_endpoint(Some("https://keeper.dobby:9000")).unwrap();
    assert_eq!(ep.host, "keeper.dobby");
    assert_eq!(ep.port, 9000);
    assert_eq!(ep.address, "keeper.dobby:9000");
    let ep = parse_endpoint(Some("[fd00::50]:8443")).unwrap();
    assert_eq!(ep.address, "[fd00::50]:8443");
    assert_eq!(ep.port, 8443);
}

#[test]
fn endpoint_errors() {
    assert!(matches!(parse_endpoint(None), Err(PairError::NoAddress)));
    assert!(matches!(parse_endpoint(Some("keeper.dobby")), Err(PairError::MissingPort)));
    assert!(matches!(parse_endpoint(Some("bad host:1")), Err(PairError::InvalidAddress)));
    assert_eq!(
        PairError::NoAddress.message(),
        "mDNS auto-discovery is not implemented yet; pass Keeper address as host:port"
    );
    assert_eq!(
        PairError::MissingPort.message(),
        "Keeper address must include an explicit port"
    );
}

#[test]
fn check_args_order() {
    let args = |address: Option<&str>, token: Option<&str>, fp: Option<&str>| PairArgs {
        address: address.map(String::from),
        token: token.map(String::from),
        fingerprint: fp.map(String::from),
    };
    assert!(matches!(check_args(&args(None, None, None)), Err(PairError::NoAddress)));
    assert!(matches!(
        check_args(&args(Some("k:1"), None, None)),
        Err(PairError::MissingToken)
    ));
    assert!(matches!(
        check_args(&args(Some("k:1"), Some("t"), None)),
        Err(PairError::MissingFingerprint)
    ));
    assert!(matches!(
        check_args(&args(Some("k:1"), Some("t"), Some("ABCD"))),
        Err(PairError::Fingerprint(TlsError::InvalidFingerprintHex))
    ));
    let inputs = check_args(&args(Some("k:1"), Some("t"), Some(FP_HEX))).unwrap();
    assert_eq!(inputs.endpoint.host, "k");
    assert_eq!(inputs.endpoint.port, 1);
    assert_eq!(inputs.token, "t");
    assert_eq!(inputs.fingerprint_hex, FP_HEX);
    assert_eq!(inputs.fingerprint, [7u8; 32]);
    assert_eq!(PairError::MissingToken.message(), "missing --token from `dobby keeper init`");
}

#[test]
fn built_request_is_accepted_by_the_pinned_keeper() {
    let keypair = WorkstationKeypair::generate().unwrap();
    let req = build_pair_request(&keypair, &[7u8; 32], "dby_boot_x");
    assert_eq!(req.workstation_pubkey, keypair.public_key_bytes().to_vec());
    assert_eq!(req.bootstrap_token, "dby_boot_x");
    assert_eq!(req.tls_fingerprint_sha256, vec![7u8; 32]);
    let svc = KeeperServiceImpl::from_pair_state(PairState {
        tls_fingerprint_sha256: [7u8; 32],
        bootstrap_token_path: String::new(),
        registry_path: String::new(),
    });
    let (phase, action) = svc.pair_step(PairPhase::Received, PairEvent::Request(req));
    assert!(matches!(action, PairAction::LoadRegistry));
    assert!(matches!(phase, PairPhase::LoadingRegistry { .. }));
}

#[test]
fn response_fingerprint_must_match_pin() {
    let ok = PairResponse { tls_fingerprint_sha256: vec![7u8; 32] };
    assert!(check_pair_response(&ok, &[7u8; 32]).is_ok());
    let other = PairResponse { tls_fingerprint_sha256: vec![8u8; 32] };
    assert!(matches!(
        check_pair_response(&other, &[7u8; 32]),
        Err(PairError::FingerprintMismatch)
    ));
    assert_eq!(
        PairError::FingerprintMismatch.message(),
        "Keeper Pair response returned a different TLS fingerprint"
    );
}

#[test]
fn certificate_pin_compares_der_fingerprint() {
    let der = b"certificate bytes";
    let pin = dobby::tls::fingerprint_sha256_bytes_from_der(der);
    assert!(certificate_matches_pin(der, &pin));
    assert!(!certificate_matches_pin(b"other certificate", &pin));
}

#[test]
fn pairing_record_stores_hex_public_key() {
    let ep = KeeperEndpoint { address: "k:1".into(), host: "k".into(), port: 1 };
    let record = pairing_record(&ep, FP_HEX, &[0xab; 32]);
    assert_eq!(record.keeper_address, "k:1");
    assert_eq!(record.tls_fingerprint_sha256, FP_HEX);
    assert_eq!(record.workstation_pubkey, "ab".repeat(32));
}

#[test]
fn registry_keys_decode_in_either_case() {
    let keypair = WorkstationKeypair::generate().unwrap();
    let mut registry = dobby::auth::KeeperAuthRegistry::default();
    let upper = const_hex::encode_upper(keypair.public_key_bytes());
    registry.workstations.push(dobby::auth::PairedWorkstation { public_key: upper.clone() });
    registry.validate_public_keys().unwrap();
    let prefixed = format!("0x{}", const_hex::encode(keypair.public_key_bytes()));
    registry.workstations[0].public_key = prefixed;
    registry.validate_public_keys().unwrap();
    registry.workstations[0].public_key = upper[..62].to_string();
    assert!(registry.validate_public_keys().is_err());
}
