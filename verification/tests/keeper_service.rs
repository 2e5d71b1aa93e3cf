use dobby::auth::{pair_challenge, AuthError, KeeperAuthRegistry, WorkstationKeypair};
use dobby::bootstrap_token::{generate, hash_for_storage};
use dobby::keeper_service::{
    auth_status, KeeperServiceImpl, PairAction, PairEvent, PairPhase, PairRequest, PairResponse,
    PairState, RpcCode, RpcStatus, StatusDetail, TokenHashReadError,
};

/// The Keeper's files, held in memory.
struct Disk {
    registry: Option<KeeperAuthRegistry>,
    token_hash: Option<String>,
    registry_load_error: Option<AuthError>,
}

fn run_pair(svc: &KeeperServiceImpl, disk: &mut Disk, req: PairRequest) -> Result<PairResponse, RpcStatus> {
    let mut phase = PairPhase::Received;
    let mut event = PairEvent::Request(req);
    loop {
        let (next, action) = svc.pair_step(phase, event);
        phase = next;
        event = match action {
            PairAction::LoadRegistry => match disk.registry_load_error.take() {
                Some(e) => PairEvent::RegistryLoaded(Err(e)),
                None => PairEvent::RegistryLoaded(Ok(disk.registry.clone().unwrap_or_default())),
            },
            PairAction::ReadTokenHash => PairEvent::TokenHashRead(
                disk.token_hash.clone().ok_or(TokenHashReadError::NotFound),
            ),
            PairAction::SaveRegistry(r) => {
                disk.registry = Some(r);
                PairEvent::RegistrySaved(Ok(()))
            }
            PairAction::RemoveTokenHash => {
                disk.token_hash = None;
                PairEvent::TokenHashRemoved
            }
            PairAction::Reply(r) => return r,
        };
    }
}

const FINGERPRINT: [u8; 32] = [7u8; 32];

fn service() -> KeeperServiceImpl {
    KeeperServiceImpl::from_pair_state(PairState {
        tls_fingerprint_sha256: FINGERPRINT,
        bootstrap_token_path: "/etc/dobby/secrets/bootstrap_token".to_string(),
        registry_path: "/etc/dobby/auth/workstations.toml".to_string(),
    })
}

/// A freshly initialised Keeper: no registry, the token hash on disk.
fn fresh_disk() -> (Disk, String) {
    let token = generate().unwrap();
    let disk = Disk {
        registry: None,
        token_hash: Some(hash_for_storage(&token).unwrap()),
        registry_load_error: None,
    };
    (disk, token)
}

fn pair_request(keypair: &WorkstationKeypair, fingerprint: &[u8; 32], token: &str) -> PairRequest {
    let pubkey = keypair.public_key_bytes();
    let challenge = pair_challenge(fingerprint, &pubkey);
    let signature = keypair.sign(&challenge);
    PairRequest {
        workstation_pubkey: pubkey.to_vec(),
        bootstrap_token: token.into(),
        tls_fingerprint_sha256: fingerprint.to_vec(),
        workstation_signature: signature.to_vec(),
    }
}

fn refusal_text(s: &RpcStatus) -> &'static str {
    match &s.detail {
        StatusDetail::Text(t) => t,
        other => panic!("expected a fixed message, got {other:?}"),
    }
}

#[test]
fn pair_registers_public_key_and_consumes_token() {
    let svc = service();
    let (mut disk, token) = fresh_disk();
    let keypair = WorkstationKeypair::generate().unwrap();

    let resp = run_pair(&svc, &mut disk, pair_request(&keypair, &FINGERPRINT, &token))
        .expect("pair succeeds");

    assert_eq!(resp.tls_fingerprint_sha256, FINGERPRINT);
    let registry = disk.registry.as_ref().unwrap();
    assert!(registry.bootstrap_token_consumed);
    assert!(registry.contains_public_key(&keypair.public_key_bytes()));
    assert!(disk.token_hash.is_none());
}

#[test]
fn pair_rejects_wrong_token() {
    let svc = service();
    let (mut disk, _token) = fresh_disk();
    let keypair = WorkstationKeypair::generate().unwrap();
    let wrong = generate().unwrap();

    let err = run_pair(&svc, &mut disk, pair_request(&keypair, &FINGERPRINT, &wrong))
        .expect_err("bad token rejected");

    assert_eq!(err.code, RpcCode::Unauthenticated);
    assert_eq!(refusal_text(&err), "invalid bootstrap token");
    assert!(disk.registry.is_none());
    assert!(disk.token_hash.is_some());
}

#[test]
fn pair_rejects_wrong_fingerprint() {
    let svc = service();
    let (mut disk, token) = fresh_disk();
    let mut fingerprint = FINGERPRINT;
    fingerprint[0] ^= 0xff;
    let keypair = WorkstationKeypair::generate().unwrap();

    let err = run_pair(&svc, &mut disk, pair_request(&keypair, &fingerprint, &token))
        .expect_err("bad fingerprint rejected");

    assert_eq!(err.code, RpcCode::Unauthenticated);
    assert_eq!(refusal_text(&err), "TLS fingerprint mismatch");
}

#[test]
fn pair_is_idempotent_for_same_key_after_token_consumption() {
    let svc = service();
    let (mut disk, token) = fresh_disk();
    let keypair = WorkstationKeypair::generate().unwrap();

    run_pair(&svc, &mut disk, pair_request(&keypair, &FINGERPRINT, &token))
        .expect("first pair succeeds");

    let resp = run_pair(
        &svc,
        &mut disk,
        pair_request(
            &keypair,
            &FINGERPRINT,
            "dby_boot_000000000000000000000000000000000000000000000000",
        ),
    )
    .expect("same key retry succeeds without token");

    assert_eq!(resp.tls_fingerprint_sha256, FINGERPRINT);
    assert_eq!(disk.registry.as_ref().unwrap().workstations.len(), 1);
}

#[test]
fn consumed_token_cannot_pair_different_key() {
    let svc = service();
    let (mut disk, token) = fresh_disk();
    let first = WorkstationKeypair::generate().unwrap();
    let second = WorkstationKeypair::generate().unwrap();

    run_pair(&svc, &mut disk, pair_request(&first, &FINGERPRINT, &token))
        .expect("first pair succeeds");

    let err = run_pair(&svc, &mut disk, pair_request(&second, &FINGERPRINT, &token))
        .expect_err("different key rejected after consumption");

    assert_eq!(err.code, RpcCode::Unauthenticated);
    assert_eq!(refusal_text(&err), "bootstrap token already consumed");
}

#[test]
fn pair_refuses_malformed_requests_in_order() {
    let svc = service();
    let (mut disk, token) = fresh_disk();
    let keypair = WorkstationKeypair::generate().unwrap();

    let mut req = pair_request(&keypair, &FINGERPRINT, &token);
    req.workstation_pubkey.pop();
    req.tls_fingerprint_sha256.clear();
    let err = run_pair(&svc, &mut disk, req).unwrap_err();
    assert_eq!(err.code, RpcCode::InvalidArgument);
    assert!(matches!(
        err.detail,
        StatusDetail::Auth(AuthError::InvalidPublicKeyLength { actual: 31 })
    ));

    let mut req = pair_request(&keypair, &FINGERPRINT, &token);
    req.tls_fingerprint_sha256.push(0);
    let err = run_pair(&svc, &mut disk, req).unwrap_err();
    assert_eq!(err.code, RpcCode::InvalidArgument);
    assert_eq!(refusal_text(&err), "TLS fingerprint must be 32 bytes");

    let mut req = pair_request(&keypair, &FINGERPRINT, &token);
    req.workstation_signature.truncate(10);
    let err = run_pair(&svc, &mut disk, req).unwrap_err();
    assert_eq!(err.code, RpcCode::InvalidArgument);
    assert!(matches!(
        err.detail,
        StatusDetail::Auth(AuthError::InvalidSignatureLength { actual: 10 })
    ));

    let mut req = pair_request(&keypair, &FINGERPRINT, &token);
    req.workstation_signature[0] ^= 1;
    let err = run_pair(&svc, &mut disk, req).unwrap_err();
    assert_eq!(err.code, RpcCode::Unauthenticated);
    assert_eq!(refusal_text(&err), "workstation signature verification failed");

    assert!(disk.registry.is_none());
    assert!(disk.token_hash.is_some());
}

#[test]
fn pair_without_stored_token_hash_is_refused() {
    let svc = service();
    let (mut disk, token) = fresh_disk();
    disk.token_hash = None;
    let keypair = WorkstationKeypair::generate().unwrap();
    let err = run_pair(&svc, &mut disk, pair_request(&keypair, &FINGERPRINT, &token)).unwrap_err();
    assert_eq!(err.code, RpcCode::Unauthenticated);
    assert_eq!(refusal_text(&err), "bootstrap token is not available");
}

#[test]
fn registry_load_failure_maps_to_status() {
    let svc = service();
    let (mut disk, token) = fresh_disk();
    disk.registry_load_error = Some(AuthError::InvalidPublicKey);
    let keypair = WorkstationKeypair::generate().unwrap();
    let err = run_pair(&svc, &mut disk, pair_request(&keypair, &FINGERPRINT, &token)).unwrap_err();
    assert_eq!(err.code, RpcCode::FailedPrecondition);
}

#[test]
fn auth_status_codes() {
    assert_eq!(auth_status(AuthError::Signature).code, RpcCode::InvalidArgument);
    assert_eq!(auth_status(AuthError::InvalidPrivateKeyFile).code, RpcCode::InvalidArgument);
    assert_eq!(auth_status(AuthError::InvalidPublicKey).code, RpcCode::FailedPrecondition);
    assert_eq!(
        auth_status(AuthError::Parse { path: "p".into(), message: "m".into() }).code,
        RpcCode::FailedPrecondition
    );
    assert_eq!(
        auth_status(AuthError::Serialise { message: "m".into() }).code,
        RpcCode::Internal
    );
    assert_eq!(
        auth_status(AuthError::Io { op: "read", path: "p".into(), message: "m".into() }).code,
        RpcCode::Internal
    );
}

#[test]
fn service_from_dir_pins_host_fingerprint_and_paths() {
    let ck = rcgen::generate_simple_self_signed(vec!["localhost".to_string()]).unwrap();
    let pem = ck.cert.pem();
    let svc = KeeperServiceImpl::from_dir("/etc/dobby", pem.as_bytes()).unwrap();
    assert_eq!(
        svc.pair_state().tls_fingerprint_sha256,
        dobby::tls::fingerprint_sha256_bytes_from_der(ck.cert.der())
    );
    assert_eq!(svc.pair_state().bootstrap_token_path, "/etc/dobby/secrets/bootstrap_token");
    assert_eq!(svc.pair_state().registry_path, "/etc/dobby/auth/workstations.toml");
    assert_eq!(dobby::keeper_service::host_cert_path("/etc/dobby"), "/etc/dobby/tls/host.crt");
    assert!(matches!(
        KeeperServiceImpl::from_dir("/etc/dobby", b"nope"),
        Err(dobby::keeper_service::ServiceInitError::TlsFingerprint(
            dobby::tls::TlsError::MissingCertificateBlock
        ))
    ));
}
