//! Ed25519 key management and request signing.
//!
//! Workstations generate a key pair at `dobby pair` time and register the
//! public half with the Keeper. This module owns the cryptographic
//! primitives (key generation, strict key parsing, the Pair challenge,
//! signing and verification) and the Keeper-side workstation registry.
//! Reading and writing the files is done around this library.

use vstd::prelude::*;
use vstd::utf8::encode_utf8;

use ed25519_dalek::{Signer, Verifier};

use crate::crypto::os_random_bytes;
use crate::path::{path_parent, path_parent_of};
use crate::hex::{decode_hex_32, decode_to_array_32, encode, hex_lower};
use crate::state::AtomicWriteError;

verus! {

broadcast use vstd::string::group_string_axioms;

/// Raw Ed25519 public-key length in bytes.
pub const PUBLIC_KEY_BYTES: usize = 32;

/// Raw Ed25519 signature length in bytes.
pub const SIGNATURE_BYTES: usize = 64;

/// First line of the workstation private-key file.
pub const PRIVATE_KEY_FILE_HEADER: &'static str = "dobby-ed25519-private-key-v1\n";

/// Domain separator at the start of every Pair challenge.
pub const PAIR_CHALLENGE_DOMAIN: &'static str = "dobby/v1/pair\n";

/// `ed25519_dalek::SigningKey`, carried as an opaque value.
#[verifier::external_type_specification]
#[verifier::external_body]
pub struct ExSigningKey(ed25519_dalek::SigningKey);

// ── Ed25519 ──────────────────────────────────────────────────────────────

/// The compressed public key of the signing key built from `seed`.
pub uninterp spec fn ed25519_public_key_of(seed: Seq<u8>) -> Seq<u8>;

/// Whether `public_key` decompresses to a curve point.
pub uninterp spec fn ed25519_public_key_valid(public_key: Seq<u8>) -> bool;

/// Whether `signature` is a valid Ed25519 signature of `message` under the
/// (valid) `public_key`.
pub uninterp spec fn ed25519_signature_valid(
    public_key: Seq<u8>,
    message: Seq<u8>,
    signature: Seq<u8>,
) -> bool;

/// A workstation Ed25519 keypair. The private half never leaves the
/// workstation. Only the trusted constructors of this module build one, so
/// `public_key` is always the public half of `signing_key`.
#[derive(Debug)]
pub struct WorkstationKeypair {
    signing_key: ed25519_dalek::SigningKey,
    public_key: [u8; 32],
}

impl WorkstationKeypair {
    /// The raw public key this keypair signs for.
    pub closed spec fn public_key(&self) -> Seq<u8> {
        self.public_key@
    }

    /// The public half of every keypair decodes as an Ed25519 key.
    #[verifier::type_invariant]
    spec fn public_key_decodes(&self) -> bool {
        ed25519_public_key_valid(self.public_key@)
    }

    /// The public key of a keypair decodes as an Ed25519 key.
    pub(crate) fn public_key_is_valid(&self)
        ensures
            ed25519_public_key_valid(self.public_key()),
    {
        proof {
            use_type_invariant(self);
        }
    }

    /// Builds the keypair for a 32-byte secret seed.
    ///
    /// Trusted: calls `SigningKey::from_bytes` and `SigningKey::verifying_key`.
    /// Claims that the public half is the name applied to the seed and, as
    /// for every key derived from a seed, that it decompresses.
    #[verifier::external_body]
    fn from_seed(seed: &[u8; 32]) -> (kp: Self)
        ensures
            kp.public_key() == ed25519_public_key_of(seed@),
            ed25519_public_key_valid(kp.public_key()),
    {
        let signing_key = ed25519_dalek::SigningKey::from_bytes(seed);
        let public_key = signing_key.verifying_key().to_bytes();
        WorkstationKeypair { signing_key, public_key }
    }

    /// The 32-byte secret seed of this keypair.
    ///
    /// Trusted: calls `SigningKey::to_bytes`; claims that the seed rebuilds
    /// the same public key, as `SigningKey::from_bytes` of it rebuilds the key.
    #[verifier::external_body]
    fn seed_bytes(&self) -> (seed: [u8; 32])
        ensures
            ed25519_public_key_of(seed@) == self.public_key(),
    {
        self.signing_key.to_bytes()
    }

    /// Signs arbitrary bytes with the workstation private key.
    ///
    /// Trusted: calls `Signer::sign` of `SigningKey` and `Signature::to_bytes`.
    /// Claims that the signature verifies under this keypair's public key,
    /// which is what an Ed25519 signature is.
    #[verifier::external_body]
    pub fn sign(&self, message: &[u8]) -> (sig: [u8; 64])
        ensures
            ed25519_signature_valid(self.public_key(), message@, sig@),
    {
        self.signing_key.sign(message).to_bytes()
    }

    /// Generates a new workstation keypair from the OS random source.
    pub fn generate() -> (r: Result<Self, AuthError>)
        ensures
            r matches Ok(kp) ==> ed25519_public_key_valid(kp.public_key()),
            r matches Ok(kp) ==> exists|seed: Seq<u8>|
                seed.len() == 32 && kp.public_key() == ed25519_public_key_of(seed),
            r matches Err(e) ==> e is Rng,
    {
        match os_random_bytes::<32>() {
            Ok(seed) => {
                let kp = Self::from_seed(&seed);
                assert(seed@.len() == 32);
                Ok(kp)
            },
            Err(e) => Err(AuthError::Rng(e)),
        }
    }

    /// Parses a keypair from the raw 32-byte Ed25519 secret seed.
    pub fn from_private_key_bytes(bytes: &[u8]) -> (r: Result<Self, AuthError>)
        ensures
            r is Ok <==> bytes@.len() == 32,
            r matches Ok(kp) ==> kp.public_key() == ed25519_public_key_of(bytes@),
            r matches Ok(kp) ==> ed25519_public_key_valid(kp.public_key()),
            r matches Err(e) ==> e is InvalidPrivateKeyFile,
    {
        if bytes.len() != 32 {
            return Err(AuthError::InvalidPrivateKeyFile);
        }
        let seed = copy_array_32(bytes);
        Ok(Self::from_seed(&seed))
    }

    /// Returns the raw 32-byte public key.
    pub fn public_key_bytes(&self) -> (pk: [u8; 32])
        ensures
            pk@ == self.public_key(),
    {
        self.public_key
    }

    /// The private-key file: header line, then the 32-byte seed.
    pub fn to_private_key_file_bytes(&self) -> (out: Vec<u8>)
        ensures
            out@.len() == private_key_file_header().len() + 32,
            out@.subrange(0, private_key_file_header().len() as int) == private_key_file_header(),
            key_file_public_key(out@) == Some(self.public_key()),
    {
        let seed = self.seed_bytes();
        let mut out = vstd::slice::slice_to_vec(PRIVATE_KEY_FILE_HEADER.as_bytes());
        let mut i: usize = 0;
        proof {
            lemma_private_key_file_header();
        }
        while i < 32
            invariant
                i <= 32,
                out@ == private_key_file_header() + seed@.subrange(0, i as int),
            decreases 32 - i,
        {
            out.push(seed[i]);
            i = i + 1;
            proof {
                assert(seed@.subrange(0, i as int) =~= seed@.subrange(0, i - 1).push(seed@[i - 1]));
            }
        }
        proof {
            assert(out@.subrange(0, private_key_file_header().len() as int) =~= private_key_file_header());
            assert(out@.subrange(private_key_file_header().len() as int, out@.len() as int) =~= seed@);
        }
        out
    }
}

/// The bytes of [`PRIVATE_KEY_FILE_HEADER`].
pub open spec fn private_key_file_header() -> Seq<u8> {
    encode_utf8(PRIVATE_KEY_FILE_HEADER@)
}

/// The public key of the keypair a private-key file holds: the file is
/// the header followed by exactly a 32-byte seed, and the key is the one
/// that seed derives. `None` for anything else.
pub open spec fn key_file_public_key(raw: Seq<u8>) -> Option<Seq<u8>> {
    let n = private_key_file_header().len();
    if raw.len() == n + 32 && raw.subrange(0, n as int) == private_key_file_header() {
        Some(ed25519_public_key_of(raw.subrange(n as int, raw.len() as int)))
    } else {
        None
    }
}

/// The bytes of [`PAIR_CHALLENGE_DOMAIN`].
pub open spec fn pair_challenge_domain() -> Seq<u8> {
    encode_utf8(PAIR_CHALLENGE_DOMAIN@)
}

proof fn lemma_private_key_file_header()
    ensures
        private_key_file_header().len() == 29,
{
    reveal_strlit("dobby-ed25519-private-key-v1\n");
    assert(vstd::utf8::is_ascii_chars(PRIVATE_KEY_FILE_HEADER@));
    vstd::utf8::is_ascii_chars_encode_utf8(PRIVATE_KEY_FILE_HEADER@);
}

/// Copies a 32-byte slice into an array.
fn copy_array_32(bytes: &[u8]) -> (a: [u8; 32])
    requires
        bytes@.len() == 32,
    ensures
        a@ == bytes@,
{
    let mut a = [0u8; 32];
    let mut i: usize = 0;
    while i < 32
        invariant
            i <= 32,
            bytes@.len() == 32,
            forall|j: int| 0 <= j < i ==> a@[j] == bytes@[j],
        decreases 32 - i,
    {
        a[i] = bytes[i];
        i = i + 1;
    }
    assert(a@ =~= bytes@);
    a
}

/// Copies a 64-byte slice into an array.
fn copy_array_64(bytes: &[u8]) -> (a: [u8; 64])
    requires
        bytes@.len() == 64,
    ensures
        a@ == bytes@,
{
    let mut a = [0u8; 64];
    let mut i: usize = 0;
    while i < 64
        invariant
            i <= 64,
            bytes@.len() == 64,
            forall|j: int| 0 <= j < i ==> a@[j] == bytes@[j],
        decreases 64 - i,
    {
        a[i] = bytes[i];
        i = i + 1;
    }
    assert(a@ =~= bytes@);
    a
}

/// Outcome of checking one Ed25519 signature.
enum Ed25519Check {
    Valid,
    InvalidPublicKey,
    InvalidSignature,
}

/// Decodes `public_key` and checks `signature` over `message` with it.
///
/// Trusted: calls `VerifyingKey::from_bytes` (decoding the key) and
/// `Verifier::verify` of `VerifyingKey`; claims the outcome is decided by
/// the two names.
#[verifier::external_body]
fn ed25519_check(public_key: &[u8; 32], message: &[u8], signature: &[u8; 64]) -> (r: Ed25519Check)
    ensures
        (r == Ed25519Check::InvalidPublicKey) == !ed25519_public_key_valid(public_key@),
        (r == Ed25519Check::Valid) == (ed25519_public_key_valid(public_key@)
            && ed25519_signature_valid(public_key@, message@, signature@)),
{
    match ed25519_dalek::VerifyingKey::from_bytes(public_key) {
        Err(_) => Ed25519Check::InvalidPublicKey,
        Ok(key) => match key.verify(message, &ed25519_dalek::Signature::from_bytes(signature)) {
            Ok(()) => Ed25519Check::Valid,
            Err(_) => Ed25519Check::InvalidSignature,
        },
    }
}

/// Whether `public_key` decodes as an Ed25519 verifying key.
///
/// Trusted: calls `VerifyingKey::from_bytes`.
#[verifier::external_body]
fn ed25519_key_decodes(public_key: &[u8; 32]) -> (b: bool)
    ensures
        b == ed25519_public_key_valid(public_key@),
{
    ed25519_dalek::VerifyingKey::from_bytes(public_key).is_ok()
}

// ── errors ───────────────────────────────────────────────────────────────

/// Errors from auth key, signature, and registry operations.
#[derive(Debug)]
pub enum AuthError {
    /// The OS random source failed.
    Rng(rand::rand_core::OsError),
    /// Public key had the wrong raw byte length.
    InvalidPublicKeyLength {
        /// Actual byte length supplied by the caller.
        actual: usize,
    },
    /// Signature had the wrong raw byte length.
    InvalidSignatureLength {
        /// Actual byte length supplied by the caller.
        actual: usize,
    },
    /// Ed25519 public key bytes were malformed.
    InvalidPublicKey,
    /// Ed25519 signature did not verify.
    Signature,
    /// Private key file had the wrong header or length.
    InvalidPrivateKeyFile,
    /// Hex field failed to decode.
    DecodeHex(const_hex::FromHexError),
    /// TOML serialisation failed.
    Serialise {
        /// The serialiser's description of the failure.
        message: String,
    },
    /// TOML parsing failed.
    Parse {
        /// File being parsed.
        path: String,
        /// The parser's description of the failure.
        message: String,
    },
    /// Filesystem / atomic-write error.
    Write(AtomicWriteError),
    /// Ambient filesystem error.
    Io {
        /// Filesystem operation that failed.
        op: &'static str,
        /// Path the failed operation targeted.
        path: String,
        /// The filesystem's description of the failure.
        message: String,
    },
}

// ── challenge, parsing, verification ─────────────────────────────────────

/// The bytes signed during Pair: domain, Keeper TLS fingerprint,
/// workstation public key.
pub open spec fn pair_challenge_bytes(fingerprint: Seq<u8>, public_key: Seq<u8>) -> Seq<u8> {
    pair_challenge_domain() + fingerprint + public_key
}

/// Builds the deterministic bytes signed during Pair.
///
/// The challenge binds this workstation public key to this Keeper TLS
/// fingerprint. Signing it proves the caller controls the private key
/// corresponding to the public key it asks the Keeper to store.
pub fn pair_challenge(tls_fingerprint_sha256: &[u8; 32], workstation_pubkey: &[u8; 32]) -> (out: Vec<
    u8,
>)
    ensures
        out@ == pair_challenge_bytes(tls_fingerprint_sha256@, workstation_pubkey@),
{
    let mut out = vstd::slice::slice_to_vec(PAIR_CHALLENGE_DOMAIN.as_bytes());
    let ghost start = out@;
    let mut i: usize = 0;
    while i < 32
        invariant
            i <= 32,
            start == pair_challenge_domain(),
            out@ == start + tls_fingerprint_sha256@.subrange(0, i as int),
        decreases 32 - i,
    {
        out.push(tls_fingerprint_sha256[i]);
        i = i + 1;
        proof {
            assert(tls_fingerprint_sha256@.subrange(0, i as int) =~= tls_fingerprint_sha256@.subrange(
                0,
                i - 1,
            ).push(tls_fingerprint_sha256@[i - 1]));
        }
    }
    assert(tls_fingerprint_sha256@.subrange(0, 32) =~= tls_fingerprint_sha256@);
    let ghost mid = out@;
    let mut j: usize = 0;
    while j < 32
        invariant
            j <= 32,
            out@ == mid + workstation_pubkey@.subrange(0, j as int),
        decreases 32 - j,
    {
        out.push(workstation_pubkey[j]);
        j = j + 1;
        proof {
            assert(workstation_pubkey@.subrange(0, j as int) =~= workstation_pubkey@.subrange(
                0,
                j - 1,
            ).push(workstation_pubkey@[j - 1]));
        }
    }
    assert(workstation_pubkey@.subrange(0, 32) =~= workstation_pubkey@);
    out
}

/// The Pair challenge binds the Keeper and the workstation: two challenges
/// over 32-byte fingerprints and 32-byte keys are equal only when both the
/// fingerprints and the keys are, so a signature made for one Keeper or one
/// key is made over different bytes than for any other.
pub proof fn law_pair_challenge_binds(f1: Seq<u8>, k1: Seq<u8>, f2: Seq<u8>, k2: Seq<u8>)
    requires
        f1.len() == 32,
        k1.len() == 32,
        f2.len() == 32,
        k2.len() == 32,
        pair_challenge_bytes(f1, k1) == pair_challenge_bytes(f2, k2),
    ensures
        f1 == f2,
        k1 == k2,
{
    let d = pair_challenge_domain();
    let c1 = pair_challenge_bytes(f1, k1);
    let c2 = pair_challenge_bytes(f2, k2);
    let n: int = d.len() as int;
    assert(f1 =~= c1.subrange(n, n + 32));
    assert(f2 =~= c2.subrange(n, n + 32));
    assert(k1 =~= c1.subrange(n + 32, n + 64));
    assert(k2 =~= c2.subrange(n + 32, n + 64));
}

/// Parses a raw public-key byte slice into a fixed-size array.
pub fn parse_public_key_bytes(bytes: &[u8]) -> (r: Result<[u8; 32], AuthError>)
    ensures
        r is Ok <==> bytes@.len() == 32,
        r matches Ok(a) ==> a@ == bytes@,
        r matches Err(e) ==> e matches AuthError::InvalidPublicKeyLength { actual } && actual
            == bytes@.len(),
{
    if bytes.len() == 32 {
        Ok(copy_array_32(bytes))
    } else {
        Err(AuthError::InvalidPublicKeyLength { actual: bytes.len() })
    }
}

/// Parses a raw signature byte slice into a fixed-size array.
pub fn parse_signature_bytes(bytes: &[u8]) -> (r: Result<[u8; 64], AuthError>)
    ensures
        r is Ok <==> bytes@.len() == 64,
        r matches Ok(a) ==> a@ == bytes@,
        r matches Err(e) ==> e matches AuthError::InvalidSignatureLength { actual } && actual
            == bytes@.len(),
{
    if bytes.len() == 64 {
        Ok(copy_array_64(bytes))
    } else {
        Err(AuthError::InvalidSignatureLength { actual: bytes.len() })
    }
}

/// Verifies an Ed25519 signature over `message`.
pub fn verify_signature(public_key: &[u8; 32], message: &[u8], signature: &[u8; 64]) -> (r: Result<
    (),
    AuthError,
>)
    ensures
        r is Ok <==> ed25519_public_key_valid(public_key@) && ed25519_signature_valid(
            public_key@,
            message@,
            signature@,
        ),
        r matches Err(e) ==> (e is InvalidPublicKey <==> !ed25519_public_key_valid(public_key@)),
        r matches Err(e) ==> (e is InvalidPublicKey || e is Signature),
{
    match ed25519_check(public_key, message, signature) {
        Ed25519Check::Valid => Ok(()),
        Ed25519Check::InvalidPublicKey => Err(AuthError::InvalidPublicKey),
        Ed25519Check::InvalidSignature => Err(AuthError::Signature),
    }
}

/// Parses the workstation private-key file: the header line, then exactly
/// the 32-byte seed.
pub fn parse_private_key_file(raw: &[u8]) -> (r: Result<WorkstationKeypair, AuthError>)
    ensures
        r is Ok <==> key_file_public_key(raw@) is Some,
        r matches Ok(kp) ==> key_file_public_key(raw@) == Some(kp.public_key()),
        r matches Err(e) ==> e is InvalidPrivateKeyFile,
{
    let header = PRIVATE_KEY_FILE_HEADER.as_bytes();
    proof {
        lemma_private_key_file_header();
    }
    if raw.len() < header.len() {
        return Err(AuthError::InvalidPrivateKeyFile);
    }
    let mut i: usize = 0;
    while i < header.len()
        invariant
            i <= header@.len() <= raw@.len(),
            header@ == private_key_file_header(),
            forall|j: int| 0 <= j < i ==> raw@[j] == header@[j],
        decreases header@.len() - i,
    {
        if raw[i] != header[i] {
            assert(raw@.subrange(0, header@.len() as int)[i as int] != header@[i as int]);
            return Err(AuthError::InvalidPrivateKeyFile);
        }
        i = i + 1;
    }
    assert(raw@.subrange(0, header@.len() as int) =~= header@);
    let seed = vstd::slice::slice_subrange(raw, header.len(), raw.len());
    WorkstationKeypair::from_private_key_bytes(seed)
}

// ── registry ─────────────────────────────────────────────────────────────

/// On-disk pairing metadata stored on the workstation after `dobby pair`.
#[derive(Debug, Clone, PartialEq, Eq)]
pub struct WorkstationPairing {
    /// Keeper endpoint the workstation paired with.
    pub keeper_address: String,
    /// Pinned Keeper TLS certificate SHA-256 fingerprint, lowercase hex.
    pub tls_fingerprint_sha256: String,
    /// Workstation public key, lowercase hex.
    pub workstation_pubkey: String,
}

/// One paired workstation entry. Only public material is persisted here.
#[derive(Debug, Clone, PartialEq, Eq)]
pub struct PairedWorkstation {
    /// Ed25519 public key, lowercase hex.
    pub public_key: String,
}

/// Keeper-side public-key registry.
#[derive(Debug, Clone, PartialEq, Eq)]
pub struct KeeperAuthRegistry {
    /// Once true, the bootstrap token cannot enrol a different key.
    pub bootstrap_token_consumed: bool,
    /// Public keys of paired workstations.
    pub workstations: Vec<PairedWorkstation>,
}

impl Default for KeeperAuthRegistry {
    fn default() -> (r: Self)
        ensures
            !r.bootstrap_token_consumed,
            r.workstations@.len() == 0,
    {
        KeeperAuthRegistry { bootstrap_token_consumed: false, workstations: Vec::new() }
    }
}

impl KeeperAuthRegistry {
    /// The registered keys, as the hex strings stored.
    pub open spec fn keys(&self) -> Seq<Seq<char>> {
        self.workstations@.map_values(|w: PairedWorkstation| w.public_key@)
    }

    /// Whether `public_key` is registered.
    pub open spec fn holds_key(&self, public_key: Seq<u8>) -> bool {
        self.keys().contains(hex_lower(public_key))
    }

    /// No key is registered twice.
    pub open spec fn keys_unique(&self) -> bool {
        forall|i: int, j: int|
            0 <= i < j < self.keys().len() ==> #[trigger] self.keys()[i] != #[trigger] self.keys()[j]
    }

    /// An empty registry whose token has not been consumed.
    pub fn new() -> (r: Self)
        ensures
            !r.bootstrap_token_consumed,
            r.keys().len() == 0,
    {
        KeeperAuthRegistry { bootstrap_token_consumed: false, workstations: Vec::new() }
    }

    /// Returns true if `public_key` is already registered.
    pub fn contains_public_key(&self, public_key: &[u8; 32]) -> (b: bool)
        ensures
            b == self.holds_key(public_key@),
    {
        let expected = encode(public_key);
        let mut i: usize = 0;
        while i < self.workstations.len()
            invariant
                i <= self.workstations@.len(),
                expected@ == hex_lower(public_key@),
                forall|j: int| 0 <= j < i ==> self.keys()[j] != expected@,
            decreases self.workstations@.len() - i,
        {
            if self.workstations[i].public_key == expected {
                assert(self.keys()[i as int] == expected@);
                return true;
            }
            i = i + 1;
        }
        proof {
            if self.keys().contains(expected@) {
                let k = choose|k: int| 0 <= k < self.keys().len() && self.keys()[k] == expected@;
                assert(self.keys()[k] != expected@);
            }
        }
        false
    }

    /// Adds `public_key` if absent.
    pub fn add_public_key(&mut self, public_key: &[u8; 32])
        ensures
            final(self).bootstrap_token_consumed == old(self).bootstrap_token_consumed,
            old(self).holds_key(public_key@) ==> final(self).keys() == old(self).keys(),
            !old(self).holds_key(public_key@) ==> final(self).keys() == old(self).keys().push(
                hex_lower(public_key@),
            ),
            final(self).holds_key(public_key@),
            forall|k: Seq<char>| old(self).keys().contains(k) ==> final(self).keys().contains(k),
            old(self).keys_unique() ==> final(self).keys_unique(),
    {
        if !self.contains_public_key(public_key) {
            self.workstations.push(PairedWorkstation { public_key: encode(public_key) });
            proof {
                assert(self.keys() =~= old(self).keys().push(hex_lower(public_key@)));
                assert(self.keys()[self.keys().len() - 1] == hex_lower(public_key@));
                assert forall|k: Seq<char>| old(self).keys().contains(k) implies self.keys().contains(
                    k,
                ) by {
                    let i = choose|i: int| 0 <= i < old(self).keys().len() && old(self).keys()[i] == k;
                    assert(self.keys()[i] == k);
                }
                if old(self).keys_unique() {
                    assert forall|i: int, j: int|
                        0 <= i < j < self.keys().len() implies #[trigger] self.keys()[i]
                        != #[trigger] self.keys()[j] by {
                        if j == self.keys().len() - 1 {
                            assert(old(self).keys()[i] == self.keys()[i]);
                        } else {
                            assert(old(self).keys()[i] != old(self).keys()[j]);
                        }
                    }
                }
            }
        }
    }

    /// Checks every registered key: it must be 64 hex digits that decode to
    /// a valid Ed25519 public key. Applied to a registry just read from disk.
    pub fn validate_public_keys(&self) -> (r: Result<(), AuthError>)
        ensures
            r is Ok <==> forall|i: int|
                0 <= i < self.keys().len() ==> #[trigger] registered_key_ok(self.keys()[i]),
            r matches Err(e) ==> exists|i: int|
                0 <= i < self.keys().len() && (forall|j: int|
                    0 <= j < i ==> #[trigger] registered_key_ok(self.keys()[j])) && !registered_key_ok(
                    self.keys()[i],
                ) && (e is DecodeHex <==> decode_hex_32(encode_utf8(self.keys()[i])) is None) && (
                e is DecodeHex || e is InvalidPublicKey),
    {
        let mut i: usize = 0;
        while i < self.workstations.len()
            invariant
                i <= self.workstations@.len(),
                forall|j: int| 0 <= j < i ==> #[trigger] registered_key_ok(self.keys()[j]),
            decreases self.workstations@.len() - i,
        {
            let key_text = self.workstations[i].public_key.as_str();
            assert(key_text@ == self.keys()[i as int]);
            match decode_to_array_32(key_text.as_bytes()) {
                Err(e) => {
                    assert(!registered_key_ok(self.keys()[i as int]));
                    return Err(AuthError::DecodeHex(e));
                },
                Ok(decoded) => {
                    if !ed25519_key_decodes(&decoded) {
                        assert(!registered_key_ok(self.keys()[i as int]));
                        return Err(AuthError::InvalidPublicKey);
                    }
                },
            }
            i = i + 1;
        }
        Ok(())
    }
}

/// A stored registry key is 64 hex digits naming a valid Ed25519 key.
pub open spec fn registered_key_ok(key: Seq<char>) -> bool {
    match decode_hex_32(encode_utf8(key)) {
        Some(bytes) => ed25519_public_key_valid(bytes),
        None => false,
    }
}

// ── files ────────────────────────────────────────────────────────────────

/// The directory a key or registry file at `path` is written into: its
/// parent, which must not be empty.
pub open spec fn parent_dir_outcome(path: Seq<char>, r: Result<String, AuthError>) -> bool {
    match path_parent_of(path) {
        Some(p) if p.len() > 0 => r matches Ok(d) && d@ == p,
        _ => r matches Err(AuthError::Io { op, path: q, message }) && op@
            == "resolve parent directory"@ && q@ == path && message@
            == "path has no parent directory"@,
    }
}

/// Resolves the owner-only directory that holds the file at `path`; it is
/// created (mode 0700) before the file is written.
pub fn parent_dir_for(path: &str) -> (r: Result<String, AuthError>)
    ensures
        parent_dir_outcome(path@, r),
{
    let fail = AuthError::Io {
        op: "resolve parent directory",
        path: String::from_str(path),
        message: String::from_str("path has no parent directory"),
    };
    match path_parent(path) {
        Some(p) => {
            if p.as_str().unicode_len() == 0 {
                Err(fail)
            } else {
                Ok(p)
            }
        },
        None => Err(fail),
    }
}

/// Permission bits of the directory holding keys and registries.
pub const OWNER_ONLY_DIR_MODE: u32 = 0o700;

/// Permission bits of key, pairing and registry files.
pub const OWNER_ONLY_FILE_MODE: u32 = 0o600;

} // verus!
