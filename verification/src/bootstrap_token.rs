//! One-time bootstrap tokens for `dobby pair`.
//!
//! `dobby keeper init` prints a single plaintext token to the operator but
//! persists only its SHA-256 digest. Token format: `dby_boot_<48 lowercase
//! hex>` (24 random bytes); stored digest format:
//! `dby_boot_sha256_<64 lowercase hex>`.

use vstd::prelude::*;
use vstd::utf8::encode_utf8;

use crate::crypto::{ct_eq, os_random_bytes, sha256, sha256_digest};
use crate::hex::{
    all_lower_hex, decode_hex_32, decode_to_array_32, encode, hex_decode_lower, hex_lower,
    is_lower_hex, lemma_decode_hex_32_lower, lemma_hex_lower_is_lower_hex, lemma_hex_round_trip,
};

use crate::text::{chars_of, starts_with};

verus! {

broadcast use vstd::string::group_string_axioms;

/// Number of random bytes backing the token (192 bits).
pub const TOKEN_BYTES: usize = 24;

/// SHA-256 digest length in bytes.
pub const TOKEN_HASH_BYTES: usize = 32;

/// Fixed prefix so operators can visually identify a dobby bootstrap token.
pub const TOKEN_PREFIX: &'static str = "dby_boot_";

/// Fixed prefix for the persisted token digest.
pub const TOKEN_HASH_PREFIX: &'static str = "dby_boot_sha256_";

/// Errors from bootstrap token generation.
#[derive(Debug)]
pub enum TokenError {
    /// The OS random source failed.
    Rng(rand::rand_core::OsError),
}

/// Errors from token or token-hash parsing.
#[derive(Debug)]
pub enum TokenFormatError {
    /// Plaintext token did not match `dby_boot_<48 lowercase hex>`.
    InvalidToken,
    /// Persisted token hash did not match `dby_boot_sha256_<64 lowercase hex>`.
    InvalidHash,
    /// Persisted token hash hex failed to decode.
    DecodeHash(const_hex::FromHexError),
}

/// `dby_boot_`.
pub open spec fn token_prefix() -> Seq<char> {
    seq!['d', 'b', 'y', '_', 'b', 'o', 'o', 't', '_']
}

/// `dby_boot_sha256_`.
pub open spec fn token_hash_prefix() -> Seq<char> {
    token_prefix() + seq!['s', 'h', 'a', '2', '5', '6', '_']
}

/// `s` is `prefix` followed by exactly `n` lowercase hex digits.
pub open spec fn is_prefixed_lower_hex(s: Seq<char>, prefix: Seq<char>, n: nat) -> bool {
    &&& s.len() == prefix.len() + n
    &&& s.subrange(0, prefix.len() as int) == prefix
    &&& all_lower_hex(s.subrange(prefix.len() as int, s.len() as int))
}

/// A well-formed plaintext token: `dby_boot_<48 lowercase hex>`.
pub open spec fn is_valid_token(t: Seq<char>) -> bool {
    is_prefixed_lower_hex(t, token_prefix(), 48)
}

/// A well-formed stored digest: `dby_boot_sha256_<64 lowercase hex>`.
pub open spec fn is_valid_token_hash(h: Seq<char>) -> bool {
    is_prefixed_lower_hex(h, token_hash_prefix(), 64)
}

/// The SHA-256 digest of a token's UTF-8 bytes.
pub open spec fn token_digest(t: Seq<char>) -> Seq<u8> {
    sha256_digest(encode_utf8(t))@
}

/// The persisted form of token `t`.
pub open spec fn stored_hash_of(t: Seq<char>) -> Seq<char> {
    token_hash_prefix() + hex_lower(token_digest(t))
}

/// The digest bytes that a well-formed stored hash spells out.
pub open spec fn digest_of_stored_hash(h: Seq<char>) -> Seq<u8> {
    hex_decode_lower(h.subrange(16, h.len() as int))
}

/// Checks `s` against `prefix` followed by `n` lowercase hex digits.
fn check_prefixed_lower_hex(s: &str, prefix: &str, n: usize) -> (b: bool)
    requires
        n <= 64,
    ensures
        b == is_prefixed_lower_hex(s@, prefix@, n as nat),
{
    let chars = chars_of(s);
    let p = chars_of(prefix);
    if !starts_with(chars.as_slice(), p.as_slice()) {
        return false;
    }
    if chars.len() - p.len() != n {
        return false;
    }
    let rest = vstd::slice::slice_subrange(chars.as_slice(), p.len(), chars.len());
    is_lower_hex(rest)
}

/// Rejects anything but `dby_boot_<48 lowercase hex>`.
pub fn validate_token(token: &str) -> (r: Result<(), TokenFormatError>)
    ensures
        r is Ok <==> is_valid_token(token@),
        r is Err ==> r matches Err(TokenFormatError::InvalidToken),
{
    proof {
        reveal_strlit("dby_boot_");
        assert(TOKEN_PREFIX@ =~= token_prefix());
    }
    if check_prefixed_lower_hex(token, TOKEN_PREFIX, TOKEN_BYTES * 2) {
        Ok(())
    } else {
        Err(TokenFormatError::InvalidToken)
    }
}

/// Parses `dby_boot_sha256_<64 lowercase hex>` into the 32 digest bytes.
pub fn parse_hash(stored_hash: &str) -> (r: Result<[u8; 32], TokenFormatError>)
    ensures
        r is Ok <==> is_valid_token_hash(stored_hash@),
        r matches Ok(d) ==> d@ == digest_of_stored_hash(stored_hash@),
        r is Err ==> r matches Err(TokenFormatError::InvalidHash),
{
    proof {
        reveal_strlit("dby_boot_sha256_");
        assert(TOKEN_HASH_PREFIX@ =~= token_hash_prefix());
    }
    if !check_prefixed_lower_hex(stored_hash, TOKEN_HASH_PREFIX, TOKEN_HASH_BYTES * 2) {
        return Err(TokenFormatError::InvalidHash);
    }
    let chars = chars_of(stored_hash);
    let hex_part = crate::text::substring(stored_hash, 16, chars.len());
    let ghost hp = stored_hash@.subrange(16, stored_hash@.len() as int);
    proof {
        crate::hex::lemma_lower_hex_utf8(hp);
        lemma_decode_hex_32_lower(hp);
    }
    match decode_to_array_32(hex_part.as_str().as_bytes()) {
        Ok(d) => Ok(d),
        Err(e) => Err(TokenFormatError::DecodeHash(e)),
    }
}

/// The token spelled by 24 random bytes: the prefix, then the bytes in
/// lowercase hex.
pub fn token_from_bytes(bytes: &[u8; 24]) -> (t: String)
    ensures
        t@ == token_prefix() + hex_lower(bytes@),
        is_valid_token(t@),
{
    let hex = encode(bytes);
    let mut out = String::from_str(TOKEN_PREFIX);
    out.append(hex.as_str());
    proof {
        reveal_strlit("dby_boot_");
        lemma_hex_lower_is_lower_hex(bytes@);
        assert(TOKEN_PREFIX@ =~= token_prefix());
        assert(out@.subrange(0, 9) =~= token_prefix());
        assert(out@.subrange(9, out@.len() as int) =~= hex@);
    }
    out
}

/// Generates a fresh bootstrap token: 24 bytes from the OS random source,
/// spelled by [`token_from_bytes`].
pub fn generate() -> (r: Result<String, TokenError>)
    ensures
        r matches Ok(t) ==> is_valid_token(t@),
        r matches Ok(t) ==> exists|b: Seq<u8>| b.len() == 24 && t@ == token_prefix() + hex_lower(b),
{
    let bytes = match os_random_bytes::<24>() {
        Ok(b) => b,
        Err(e) => return Err(TokenError::Rng(e)),
    };
    let t = token_from_bytes(&bytes);
    assert(bytes@.len() == 24);
    Ok(t)
}

/// Hashes a plaintext bootstrap token into its persisted form.
pub fn hash_for_storage(token: &str) -> (r: Result<String, TokenFormatError>)
    ensures
        is_valid_token(token@) ==> (r matches Ok(h) && h@ == stored_hash_of(token@)),
        !is_valid_token(token@) ==> r matches Err(TokenFormatError::InvalidToken),
{
    validate_token(token)?;
    let digest = sha256(token.as_bytes());
    let hex = encode(&digest);
    let mut out = String::from_str(TOKEN_HASH_PREFIX);
    out.append(hex.as_str());
    proof {
        reveal_strlit("dby_boot_sha256_");
        assert(TOKEN_HASH_PREFIX@ =~= token_hash_prefix());
    }
    Ok(out)
}

/// Constant-time verification of a presented token against the stored hash.
pub fn verify_against_hash(token: &str, stored_hash: &str) -> (r: Result<bool, TokenFormatError>)
    ensures
        !is_valid_token(token@) ==> r matches Err(TokenFormatError::InvalidToken),
        is_valid_token(token@) && !is_valid_token_hash(stored_hash@) ==> r matches Err(
            TokenFormatError::InvalidHash,
        ),
        is_valid_token(token@) && is_valid_token_hash(stored_hash@) ==> (r matches Ok(b) && b == (
        token_digest(token@) == digest_of_stored_hash(stored_hash@))),
{
    validate_token(token)?;
    let expected = parse_hash(stored_hash)?;
    let actual = sha256(token.as_bytes());
    Ok(ct_eq(&actual, &expected))
}

/// Every stored hash that `hash_for_storage` produces is well-formed and
/// spells out the token's digest.
pub proof fn lemma_stored_hash_well_formed(t: Seq<char>)
    ensures
        token_digest(t).len() == 32,
        is_valid_token_hash(stored_hash_of(t)),
        digest_of_stored_hash(stored_hash_of(t)) == token_digest(t),
{
    let h = stored_hash_of(t);
    let d = token_digest(t);
    lemma_hex_lower_is_lower_hex(d);
    lemma_hex_round_trip(d);
    assert(h.subrange(0, 16) =~= token_hash_prefix());
    assert(h.subrange(16, h.len() as int) =~= hex_lower(d));
}

/// The stored form of a token never spells the token itself: the token's
/// tenth character is a hex digit, the stored hash's is the `s` of
/// `sha256`.
pub proof fn law_stored_hash_is_not_the_token(t: Seq<char>)
    requires
        is_valid_token(t),
    ensures
        stored_hash_of(t) != t,
{
    let h = stored_hash_of(t);
    assert(h[9] == 's');
    assert(t.subrange(9, t.len() as int)[0] == t[9]);
    assert(crate::hex::is_lower_hex_char(t[9]));
}

} // verus!
