use dobby::bootstrap_token::{
    generate, hash_for_storage, parse_hash, validate_token, verify_against_hash, TokenFormatError,
    token_from_bytes, TOKEN_BYTES,
    TOKEN_HASH_PREFIX, TOKEN_PREFIX,
};

#[test]
fn generated_token_has_expected_shape() {
    let t = generate().unwrap();
    let s: &str = &t;
    assert!(s.starts_with(TOKEN_PREFIX));
    let hex_part = &s[TOKEN_PREFIX.len()..];
    assert_eq!(hex_part.len(), TOKEN_BYTES * 2);
    assert!(hex_part
        .chars()
        .all(|c| c.is_ascii_digit() || ('a'..='f').contains(&c)));
}

#[test]
fn each_call_returns_distinct_token() {
    let a = generate().unwrap();
    let b = generate().unwrap();
    assert_ne!(a, b);
}

#[test]
fn no_trailing_whitespace_or_control_chars() {
    let t = generate().unwrap();
    let s: &str = &t;
    assert!(s.chars().all(|c| !c.is_control()));
    assert_eq!(s.trim(), s);
}

#[test]
fn hash_verifies_original_token_only() {
    let token = generate().unwrap();
    let stored = hash_for_storage(&token).unwrap();

    assert!(stored.starts_with(TOKEN_HASH_PREFIX));
    assert!(verify_against_hash(&token, &stored).unwrap());

    let other = generate().unwrap();
    assert!(!verify_against_hash(&other, &stored).unwrap());
}

#[test]
fn hash_rejects_plaintext_token_shape_errors() {
    assert!(matches!(
        hash_for_storage("wrong"),
        Err(TokenFormatError::InvalidToken)
    ));
    assert!(matches!(
        hash_for_storage("dby_boot_ABCDEFABCDEFABCDEFABCDEFABCDEFABCDEFABCDEFABCDEF"),
        Err(TokenFormatError::InvalidToken)
    ));
}

#[test]
fn verify_rejects_hash_shape_errors() {
    let token = generate().unwrap();
    assert!(matches!(
        verify_against_hash(&token, "dby_boot_plaintext"),
        Err(TokenFormatError::InvalidHash)
    ));
}

#[test]
fn stored_hash_is_sha256_of_token_in_lowercase_hex() {
    let token = "dby_boot_000102030405060708090a0b0c0d0e0f1011121314151617";
    let stored = hash_for_storage(token).unwrap();
    let digest = <sha2::Sha256 as sha2::Digest>::digest(token.as_bytes());
    let expected = format!("dby_boot_sha256_{}", const_hex::encode(digest));
    assert_eq!(stored, expected);
    assert_eq!(stored.len(), 16 + 64);
    let digest = parse_hash(&stored).unwrap();
    assert_eq!(const_hex::encode(digest), &stored[16..]);
}

#[test]
fn validate_token_checks_prefix_length_and_case() {
    assert!(validate_token("dby_boot_000102030405060708090a0b0c0d0e0f1011121314151617").is_ok());
    assert!(validate_token("dby_boot_000102030405060708090a0b0c0d0e0f10111213141516").is_err());
    assert!(validate_token("dby_boot_000102030405060708090a0b0c0d0e0f101112131415161718").is_err());
    assert!(validate_token("xby_boot_000102030405060708090a0b0c0d0e0f1011121314151617").is_err());
    assert!(validate_token("dby_boot_000102030405060708090A0B0C0D0E0F1011121314151617").is_err());
}

#[test]
fn verify_rejects_malformed_token_before_hash() {
    assert!(matches!(
        verify_against_hash("nope", "also nope"),
        Err(TokenFormatError::InvalidToken)
    ));
}

#[test]
fn token_spells_its_bytes() {
    let mut bytes = [0u8; 24];
    for (i, b) in bytes.iter_mut().enumerate() {
        *b = i as u8 * 11;
    }
    let t = token_from_bytes(&bytes);
    assert_eq!(t, format!("dby_boot_{}", const_hex::encode(bytes)));
    assert!(validate_token(&t).is_ok());
}
