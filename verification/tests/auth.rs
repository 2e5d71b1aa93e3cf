use dobby::auth::{
    pair_challenge, parse_private_key_file, parse_public_key_bytes, parse_signature_bytes,
    verify_signature, AuthError, KeeperAuthRegistry, WorkstationKeypair,
};

#[test]
fn generated_keypair_signs_and_verifies() {
    let keypair = WorkstationKeypair::generate().unwrap();
    let pubkey = keypair.public_key_bytes();
    let message = b"hello dobby";
    let sig = keypair.sign(message);

    verify_signature(&pubkey, message, &sig).unwrap();
}

#[test]
fn signature_is_bound_to_message() {
    let keypair = WorkstationKeypair::generate().unwrap();
    let pubkey = keypair.public_key_bytes();
    let sig = keypair.sign(b"original");

    assert!(matches!(
        verify_signature(&pubkey, b"tampered", &sig),
        Err(AuthError::Signature)
    ));
}

#[test]
fn pair_challenge_is_bound_to_keeper_and_workstation() {
    let keypair = WorkstationKeypair::generate().unwrap();
    let pubkey = keypair.public_key_bytes();
    let mut fingerprint = [7u8; 32];
    let challenge = pair_challenge(&fingerprint, &pubkey);
    let sig = keypair.sign(&challenge);

    verify_signature(&pubkey, &challenge, &sig).unwrap();

    fingerprint[0] = 8;
    let changed = pair_challenge(&fingerprint, &pubkey);
    assert!(matches!(
        verify_signature(&pubkey, &changed, &sig),
        Err(AuthError::Signature)
    ));
}

#[test]
fn pair_challenge_layout_is_domain_fingerprint_key() {
    let challenge = pair_challenge(&[1u8; 32], &[2u8; 32]);
    let domain_len = challenge.len() - 64;
    assert!(domain_len > 0);
    assert!(challenge[domain_len..domain_len + 32].iter().all(|b| *b == 1));
    assert!(challenge[domain_len + 32..].iter().all(|b| *b == 2));
    let again = pair_challenge(&[1u8; 32], &[2u8; 32]);
    assert_eq!(challenge, again);
    let other_key = pair_challenge(&[1u8; 32], &[3u8; 32]);
    assert_ne!(challenge, other_key);
}

#[test]
fn private_key_file_round_trips() {
    let keypair = WorkstationKeypair::generate().unwrap();
    let bytes = keypair.to_private_key_file_bytes();
    assert!(bytes.starts_with(b"dobby-ed25519-private-key-v1\n"));
    assert_eq!(bytes.len(), 29 + 32);
    let loaded = parse_private_key_file(&bytes).unwrap();
    assert_eq!(loaded.public_key_bytes(), keypair.public_key_bytes());
}

#[test]
fn private_key_file_rejects_wrong_header_or_length() {
    let keypair = WorkstationKeypair::generate().unwrap();
    let mut bytes = keypair.to_private_key_file_bytes();
    bytes.push(0);
    assert!(matches!(
        parse_private_key_file(&bytes),
        Err(AuthError::InvalidPrivateKeyFile)
    ));
    let mut bad_header = keypair.to_private_key_file_bytes();
    bad_header[0] = b'X';
    assert!(matches!(
        parse_private_key_file(&bad_header),
        Err(AuthError::InvalidPrivateKeyFile)
    ));
    assert!(matches!(
        WorkstationKeypair::from_private_key_bytes(&[0u8; 31]),
        Err(AuthError::InvalidPrivateKeyFile)
    ));
}

#[test]
fn keypair_from_seed_is_deterministic() {
    let a = WorkstationKeypair::from_private_key_bytes(&[9u8; 32]).unwrap();
    let b = WorkstationKeypair::from_private_key_bytes(&[9u8; 32]).unwrap();
    assert_eq!(a.public_key_bytes(), b.public_key_bytes());
    let c = WorkstationKeypair::from_private_key_bytes(&[10u8; 32]).unwrap();
    assert_ne!(a.public_key_bytes(), c.public_key_bytes());
}

#[test]
fn parse_key_and_signature_lengths() {
    assert_eq!(parse_public_key_bytes(&[5u8; 32]).unwrap(), [5u8; 32]);
    assert!(matches!(
        parse_public_key_bytes(&[5u8; 31]),
        Err(AuthError::InvalidPublicKeyLength { actual: 31 })
    ));
    assert_eq!(parse_signature_bytes(&[6u8; 64]).unwrap(), [6u8; 64]);
    assert!(matches!(
        parse_signature_bytes(&[6u8; 65]),
        Err(AuthError::InvalidSignatureLength { actual: 65 })
    ));
}

#[test]
fn verify_rejects_malformed_public_key() {
    // The y-coordinate 2 (little-endian) is not on the curve.
    let mut key = [0u8; 32];
    key[0] = 2;
    let keypair = WorkstationKeypair::generate().unwrap();
    let sig = keypair.sign(b"m");
    assert!(matches!(
        verify_signature(&key, b"m", &sig),
        Err(AuthError::InvalidPublicKey)
    ));
}

#[test]
fn registry_add_is_idempotent_and_stores_hex() {
    let mut registry = KeeperAuthRegistry::new();
    let keypair = WorkstationKeypair::generate().unwrap();
    let pk = keypair.public_key_bytes();
    assert!(!registry.contains_public_key(&pk));
    registry.add_public_key(&pk);
    assert!(registry.contains_public_key(&pk));
    registry.add_public_key(&pk);
    assert_eq!(registry.workstations.len(), 1);
    assert_eq!(registry.workstations[0].public_key, const_hex::encode(pk));
    assert!(!registry.bootstrap_token_consumed);
    registry.validate_public_keys().unwrap();
}

#[test]
fn registry_validation_rejects_bad_entries() {
    let mut registry = KeeperAuthRegistry::default();
    registry.workstations.push(dobby::auth::PairedWorkstation { public_key: "zz".to_string() });
    assert!(matches!(registry.validate_public_keys(), Err(AuthError::DecodeHex(_))));

    let mut bad_point = [0u8; 32];
    bad_point[0] = 2;
    let mut registry = KeeperAuthRegistry::default();
    registry.workstations.push(dobby::auth::PairedWorkstation {
        public_key: const_hex::encode(bad_point),
    });
    assert!(matches!(registry.validate_public_keys(), Err(AuthError::InvalidPublicKey)));
}
