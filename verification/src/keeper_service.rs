//! `KeeperService` — the decisions of the CLI ↔ Keeper gRPC surface.
//!
//! Pair is a short conversation between these decisions and the
//! filesystem: [`KeeperServiceImpl::pair_step`] takes the current phase and
//! what just happened, and returns the next phase and what to do (load the
//! registry, read the token hash, save the registry, remove the token
//! hash, or reply). The server around this library performs each action
//! and reports its outcome as the next event, holding one lock across the
//! whole conversation so that concurrent pairs run one after the other.

use vstd::prelude::*;

use crate::auth::{
    ed25519_public_key_valid, ed25519_signature_valid, pair_challenge, pair_challenge_bytes,
    parse_public_key_bytes, parse_signature_bytes, verify_signature, AuthError,
    KeeperAuthRegistry,
};
use crate::bootstrap_token::{
    digest_of_stored_hash, is_valid_token, is_valid_token_hash, stored_hash_of, token_digest,
    verify_against_hash,
};
use crate::hex::{hex_decode_lower, hex_lower};
use crate::path::{path_join, path_join_of};
use crate::tls::{
    certificate_payload, fingerprint_hex, fingerprint_sha256_bytes_from_pem,
    lemma_fingerprint_hex_round_trip, pem_certificate_der, pem_fingerprint_outcome, TlsError,
};

verus! {

/// Identity material and paths required by the Pair RPC.
#[derive(Debug)]
pub struct PairState {
    /// SHA-256 fingerprint of the Keeper host certificate (DER).
    pub tls_fingerprint_sha256: [u8; 32],
    /// Where the stored bootstrap-token hash lives.
    pub bootstrap_token_path: String,
    /// Where the workstation registry lives.
    pub registry_path: String,
}

/// The Keeper service.
#[derive(Debug)]
pub struct KeeperServiceImpl {
    pair_state: PairState,
}

/// Errors constructing [`KeeperServiceImpl`] from a Keeper state dir.
#[derive(Debug)]
pub enum ServiceInitError {
    /// Could not read the persisted host certificate.
    ReadHostCert {
        /// Certificate path.
        path: String,
        /// The filesystem's description of the failure.
        message: String,
    },
    /// Could not compute the host certificate fingerprint.
    TlsFingerprint(TlsError),
}

/// A Pair request, as the workstation sends it.
#[derive(Debug, Clone)]
pub struct PairRequest {
    /// Raw Ed25519 public key of the workstation.
    pub workstation_pubkey: Vec<u8>,
    /// Plaintext bootstrap token.
    pub bootstrap_token: String,
    /// Keeper TLS fingerprint the workstation pinned.
    pub tls_fingerprint_sha256: Vec<u8>,
    /// Signature over the Pair challenge.
    pub workstation_signature: Vec<u8>,
}

/// A successful Pair reply.
#[derive(Debug, Clone)]
pub struct PairResponse {
    /// The Keeper's TLS fingerprint.
    pub tls_fingerprint_sha256: Vec<u8>,
}

/// gRPC status codes this service answers with.
#[derive(Debug, Clone, Copy, PartialEq, Eq, Structural)]
pub enum RpcCode {
    /// `INVALID_ARGUMENT`.
    InvalidArgument,
    /// `UNAUTHENTICATED`.
    Unauthenticated,
    /// `FAILED_PRECONDITION`.
    FailedPrecondition,
    /// `INTERNAL`.
    Internal,
}

/// What a refusal says.
#[derive(Debug)]
pub enum StatusDetail {
    /// A fixed message.
    Text(&'static str),
    /// The message of an auth error.
    Auth(AuthError),
    /// The bootstrap-token hash could not be read for another reason than
    /// its absence; the filesystem's description.
    ReadTokenHash(String),
}

/// A refused RPC: a status code and what it says.
#[derive(Debug)]
pub struct RpcStatus {
    /// The gRPC status code.
    pub code: RpcCode,
    /// The message.
    pub detail: StatusDetail,
}

/// Why the bootstrap-token hash could not be read.
#[derive(Debug, Clone)]
pub enum TokenHashReadError {
    /// The file does not exist (the token was consumed or never written).
    NotFound,
    /// Any other filesystem failure, described.
    Other(String),
}

/// Where a Pair conversation stands.
#[derive(Debug)]
pub enum PairPhase {
    /// Waiting for the request.
    Received,
    /// The request checked out; the registry is being loaded.
    LoadingRegistry {
        /// The workstation key asking to pair.
        public_key: [u8; 32],
        /// The presented bootstrap token.
        bootstrap_token: String,
    },
    /// The key is new and the token unconsumed; its hash is being read.
    ReadingTokenHash {
        /// The workstation key asking to pair.
        public_key: [u8; 32],
        /// The presented bootstrap token.
        bootstrap_token: String,
        /// The registry as loaded.
        registry: KeeperAuthRegistry,
    },
    /// The enrolled registry is being saved.
    SavingRegistry,
    /// The consumed token hash is being removed.
    RemovingTokenHash,
    /// A reply has been given.
    Finished,
}

/// What just happened.
#[derive(Debug)]
pub enum PairEvent {
    /// The request arrived.
    Request(PairRequest),
    /// The registry was loaded (a missing file loads as an empty registry).
    RegistryLoaded(Result<KeeperAuthRegistry, AuthError>),
    /// The stored token hash was read.
    TokenHashRead(Result<String, TokenHashReadError>),
    /// The registry was saved.
    RegistrySaved(Result<(), AuthError>),
    /// Removing the token hash was attempted (its failure is only logged).
    TokenHashRemoved,
}

/// What to do next.
#[derive(Debug)]
pub enum PairAction {
    /// Load the workstation registry.
    LoadRegistry,
    /// Read the stored bootstrap-token hash.
    ReadTokenHash,
    /// Save this registry.
    SaveRegistry(KeeperAuthRegistry),
    /// Remove the stored bootstrap-token hash.
    RemoveTokenHash,
    /// Reply to the workstation.
    Reply(Result<PairResponse, RpcStatus>),
}

/// The status code an auth error maps to.
pub open spec fn auth_error_code(e: AuthError) -> RpcCode {
    match e {
        AuthError::Parse { .. } | AuthError::DecodeHex(_) | AuthError::InvalidPublicKey => {
            RpcCode::FailedPrecondition
        },
        AuthError::Io { .. } | AuthError::Write(_) | AuthError::Serialise { .. } => {
            RpcCode::Internal
        },
        _ => RpcCode::InvalidArgument,
    }
}

/// Maps an auth error to the status the Keeper answers with.
pub fn auth_status(err: AuthError) -> (s: RpcStatus)
    ensures
        s.code == auth_error_code(err),
        s.detail == StatusDetail::Auth(err),
{
    let code = match &err {
        AuthError::Parse { .. } | AuthError::DecodeHex(_) | AuthError::InvalidPublicKey => {
            RpcCode::FailedPrecondition
        },
        AuthError::Io { .. } | AuthError::Write(_) | AuthError::Serialise { .. } => {
            RpcCode::Internal
        },
        AuthError::Rng(_)
        | AuthError::InvalidPublicKeyLength { .. }
        | AuthError::InvalidSignatureLength { .. }
        | AuthError::Signature
        | AuthError::InvalidPrivateKeyFile => RpcCode::InvalidArgument,
    };
    RpcStatus { code, detail: StatusDetail::Auth(err) }
}

/// A refusal with a fixed message.
pub open spec fn is_refusal(a: PairAction, code: RpcCode, text: Seq<char>) -> bool {
    match a {
        PairAction::Reply(Err(s)) => s.code == code && match s.detail {
            StatusDetail::Text(t) => t@ == text,
            _ => false,
        },
        _ => false,
    }
}

/// A refusal with this code and detail.
pub open spec fn is_refused_with(a: PairAction, code: RpcCode, detail: StatusDetail) -> bool {
    match a {
        PairAction::Reply(Err(s)) => s.code == code && s.detail == detail,
        _ => false,
    }
}

/// A successful reply carrying `fingerprint`.
pub open spec fn is_answer(a: PairAction, fingerprint: Seq<u8>) -> bool {
    match a {
        PairAction::Reply(Ok(resp)) => resp.tls_fingerprint_sha256@ == fingerprint,
        _ => false,
    }
}

/// The registry an action saves, if it saves one.
pub open spec fn saved_registry(a: PairAction) -> Option<KeeperAuthRegistry> {
    match a {
        PairAction::SaveRegistry(reg) => Some(reg),
        _ => None,
    }
}

/// The phase that loads the registry for this key and token.
pub open spec fn is_loading(p: PairPhase, public_key: Seq<u8>, token: String) -> bool {
    match p {
        PairPhase::LoadingRegistry { public_key: k, bootstrap_token: t } => k@ == public_key && t
            == token,
        _ => false,
    }
}

/// The phase that reads the token hash for this key, token and registry.
pub open spec fn is_reading(
    p: PairPhase,
    public_key: [u8; 32],
    token: String,
    registry: KeeperAuthRegistry,
) -> bool {
    match p {
        PairPhase::ReadingTokenHash { public_key: k, bootstrap_token: t, registry: g } => k
            == public_key && t == token && g == registry,
        _ => false,
    }
}

/// The registry saved after a successful enrolment of `public_key` into
/// `before`: the key is added if absent and the token is consumed.
pub open spec fn is_enrolment(
    saved: Option<KeeperAuthRegistry>,
    before: KeeperAuthRegistry,
    public_key: Seq<u8>,
) -> bool {
    match saved {
        Some(reg) => {
            &&& reg.bootstrap_token_consumed
            &&& before.holds_key(public_key) ==> reg.keys() == before.keys()
            &&& !before.holds_key(public_key) ==> reg.keys() == before.keys().push(
                hex_lower(public_key),
            )
        },
        None => false,
    }
}

/// The checks of the request itself, in the order they are made.
pub open spec fn request_outcome(own: Seq<u8>, req: PairRequest, r: (PairPhase, PairAction)) -> bool {
    let pk = req.workstation_pubkey@;
    let fp = req.tls_fingerprint_sha256@;
    let sig = req.workstation_signature@;
    &&& (r.1 is LoadRegistry) <==> request_acceptable(own, pk, fp, sig)
    &&& r.1 is LoadRegistry ==> is_loading(r.0, pk, req.bootstrap_token)
    &&& !(r.1 is LoadRegistry) ==> r.0 is Finished && r.1 is Reply
    &&& pk.len() != 32 ==> is_refused_with(
        r.1,
        RpcCode::InvalidArgument,
        StatusDetail::Auth(AuthError::InvalidPublicKeyLength { actual: pk.len() as usize }),
    )
    &&& pk.len() == 32 && fp.len() != 32 ==> is_refusal(
        r.1,
        RpcCode::InvalidArgument,
        "TLS fingerprint must be 32 bytes"@,
    )
    &&& pk.len() == 32 && fp.len() == 32 && fp != own ==> is_refusal(
        r.1,
        RpcCode::Unauthenticated,
        "TLS fingerprint mismatch"@,
    )
    &&& pk.len() == 32 && fp == own && sig.len() != 64 ==> is_refused_with(
        r.1,
        RpcCode::InvalidArgument,
        StatusDetail::Auth(AuthError::InvalidSignatureLength { actual: sig.len() as usize }),
    )
    &&& pk.len() == 32 && fp == own && sig.len() == 64 && !request_acceptable(own, pk, fp, sig)
        ==> is_refusal(r.1, RpcCode::Unauthenticated, "workstation signature verification failed"@)
}

/// The token check and enrolment, for key `public_key`, token `token` and
/// the loaded `registry`.
pub open spec fn enrol_outcome(
    public_key: [u8; 32],
    token: String,
    registry: KeeperAuthRegistry,
    read: Result<String, TokenHashReadError>,
    r: (PairPhase, PairAction),
) -> bool {
    match read {
        Err(TokenHashReadError::NotFound) => r.0 is Finished && is_refusal(
            r.1,
            RpcCode::Unauthenticated,
            "bootstrap token is not available"@,
        ),
        Err(TokenHashReadError::Other(m)) => r.0 is Finished && is_refused_with(
            r.1,
            RpcCode::Internal,
            StatusDetail::ReadTokenHash(m),
        ),
        Ok(h) => if token_matches(token@, h@) {
            r.0 is SavingRegistry && is_enrolment(saved_registry(r.1), registry, public_key@)
        } else {
            r.0 is Finished && is_refusal(r.1, RpcCode::Unauthenticated, "invalid bootstrap token"@)
        },
    }
}

/// A saved registry only ever follows a matching token.
pub open spec fn saves_only_after_token(
    token: String,
    read: Result<String, TokenHashReadError>,
    r: (PairPhase, PairAction),
) -> bool {
    r.1 is SaveRegistry ==> match read {
        Ok(h) => token_matches(token@, h@),
        Err(_) => false,
    }
}

/// The outcome of loading the registry for key `public_key`.
pub open spec fn registry_outcome(
    own: Seq<u8>,
    public_key: [u8; 32],
    token: String,
    loaded: Result<KeeperAuthRegistry, AuthError>,
    r: (PairPhase, PairAction),
) -> bool {
    match loaded {
        Err(e) => r.0 is Finished && is_refused_with(
            r.1,
            auth_error_code(e),
            StatusDetail::Auth(e),
        ),
        Ok(reg) => if reg.holds_key(public_key@) {
            r.0 is Finished && is_answer(r.1, own)
        } else if reg.bootstrap_token_consumed {
            r.0 is Finished && is_refusal(
                r.1,
                RpcCode::Unauthenticated,
                "bootstrap token already consumed"@,
            )
        } else {
            r.1 is ReadTokenHash && is_reading(r.0, public_key, token, reg)
        },
    }
}

/// A request passes the Keeper's checks: a 32-byte key, the Keeper's own
/// fingerprint, a 64-byte signature that verifies over the challenge.
pub open spec fn request_acceptable(
    own_fingerprint: Seq<u8>,
    public_key: Seq<u8>,
    fingerprint: Seq<u8>,
    signature: Seq<u8>,
) -> bool {
    &&& public_key.len() == 32
    &&& fingerprint == own_fingerprint
    &&& signature.len() == 64
    &&& ed25519_public_key_valid(public_key)
    &&& ed25519_signature_valid(
        public_key,
        pair_challenge_bytes(fingerprint, public_key),
        signature,
    )
}

/// The presented token matches the stored hash.
pub open spec fn token_matches(token: Seq<char>, stored_hash: Seq<char>) -> bool {
    &&& is_valid_token(token)
    &&& is_valid_token_hash(stored_hash)
    &&& token_digest(token) == digest_of_stored_hash(stored_hash)
}

/// The token that init prints is admitted by the hash that init stores:
/// a well-formed token matches its own stored hash.
pub proof fn law_init_token_admitted(token: Seq<char>)
    requires
        is_valid_token(token),
    ensures
        token_matches(token, stored_hash_of(token)),
{
    crate::bootstrap_token::lemma_stored_hash_well_formed(token);
}

/// After an enrolment, the enrolled key pairs again without the token: a
/// later request from the same key, once its registry is loaded, is
/// answered with the Keeper's fingerprint whatever token it carries.
pub proof fn law_enrolled_key_pairs_again(
    saved: KeeperAuthRegistry,
    before: KeeperAuthRegistry,
    own: Seq<u8>,
    public_key: [u8; 32],
    token: String,
    r: (PairPhase, PairAction),
)
    requires
        is_enrolment(Some(saved), before, public_key@),
        registry_outcome(own, public_key, token, Ok(saved), r),
    ensures
        r.0 is Finished,
        is_answer(r.1, own),
{
    if !before.holds_key(public_key@) {
        let keys = before.keys().push(hex_lower(public_key@));
        assert(saved.keys() == keys);
        assert(keys[keys.len() - 1] == hex_lower(public_key@));
    }
}

/// The bootstrap token enrols one key: after an enrolment, a request from
/// any key not in the saved registry is refused as already consumed, and
/// nothing is saved.
pub proof fn law_token_enrols_once(
    saved: KeeperAuthRegistry,
    before: KeeperAuthRegistry,
    enrolled: Seq<u8>,
    own: Seq<u8>,
    other: [u8; 32],
    token: String,
    r: (PairPhase, PairAction),
)
    requires
        is_enrolment(Some(saved), before, enrolled),
        !saved.holds_key(other@),
        registry_outcome(own, other, token, Ok(saved), r),
    ensures
        r.0 is Finished,
        is_refusal(r.1, RpcCode::Unauthenticated, "bootstrap token already consumed"@),
        saved_registry(r.1) is None,
{
}

/// The fingerprint that init prints is the one the Keeper serves: when the
/// host certificate PEM holds a certificate whose DER is `der` and the
/// printed text is its fingerprint (as `init_contents` states of
/// `tls/host.crt`), building the service from those PEM bytes succeeds and
/// pins exactly the bytes that the printed text decodes to, which `dobby
/// pair --fingerprint` sends and the Keeper compares against.
pub proof fn law_printed_fingerprint_is_served(host_cert_pem: Seq<char>, der: Seq<u8>, printed: Seq<
    char,
>)
    requires
        pem_certificate_der(vstd::utf8::encode_utf8(host_cert_pem)) == Some(der),
        printed == fingerprint_hex(der),
    ensures
        vstd::utf8::valid_utf8(vstd::utf8::encode_utf8(host_cert_pem)),
        pem_certificate_der(vstd::utf8::encode_utf8(host_cert_pem)) is Some,
        hex_decode_lower(printed) == crate::crypto::sha256_digest(
            pem_certificate_der(vstd::utf8::encode_utf8(host_cert_pem))->0,
        )@,
        printed.len() == 64,
        crate::hex::all_lower_hex(printed),
{
    vstd::utf8::encode_utf8_valid_utf8(host_cert_pem);
    lemma_fingerprint_hex_round_trip(der);
}

/// Where the Keeper host certificate lives under the state directory.
pub fn host_cert_path(dir: &str) -> (p: String)
    ensures
        p@ == path_join_of(dir@, "tls/host.crt"@),
{
    path_join(dir, "tls/host.crt")
}

impl KeeperServiceImpl {
    /// The Keeper's pinned fingerprint.
    pub closed spec fn fingerprint(&self) -> Seq<u8> {
        self.pair_state.tls_fingerprint_sha256@
    }

    /// Where the stored bootstrap-token hash lives.
    pub closed spec fn token_hash_path(&self) -> Seq<char> {
        self.pair_state.bootstrap_token_path@
    }

    /// Where the workstation registry lives.
    pub closed spec fn registry_path(&self) -> Seq<char> {
        self.pair_state.registry_path@
    }

    /// Builds the service around its Pair state.
    pub fn from_pair_state(pair_state: PairState) -> (s: Self)
        ensures
            s.fingerprint() == pair_state.tls_fingerprint_sha256@,
            s.token_hash_path() == pair_state.bootstrap_token_path@,
            s.registry_path() == pair_state.registry_path@,
    {
        KeeperServiceImpl { pair_state }
    }

    /// Builds the service for the state directory `dir` from the PEM host
    /// certificate read from [`host_cert_path`]: the fingerprint is that of
    /// the certificate, and the token hash and registry live under `dir`.
    pub fn from_dir(dir: &str, host_cert_pem: &[u8]) -> (r: Result<Self, ServiceInitError>)
        ensures
            r is Ok <==> vstd::utf8::valid_utf8(host_cert_pem@) && pem_certificate_der(
                host_cert_pem@,
            ) is Some,
            r matches Ok(s) ==> s.fingerprint() == crate::crypto::sha256_digest(
                pem_certificate_der(host_cert_pem@)->0,
            )@,
            r matches Ok(s) ==> s.token_hash_path() == path_join_of(dir@, "secrets/bootstrap_token"@)
                && s.registry_path() == path_join_of(dir@, "auth/workstations.toml"@),
            r matches Err(e) ==> e is TlsFingerprint,
            r matches Err(ServiceInitError::TlsFingerprint(e)) ==> pem_fingerprint_outcome(
                host_cert_pem@,
                Err(e),
            ),
    {
        match fingerprint_sha256_bytes_from_pem(host_cert_pem) {
            Ok(tls_fingerprint_sha256) => Ok(
                Self::from_pair_state(
                    PairState {
                        tls_fingerprint_sha256,
                        bootstrap_token_path: path_join(dir, "secrets/bootstrap_token"),
                        registry_path: path_join(dir, "auth/workstations.toml"),
                    },
                ),
            ),
            Err(e) => Err(ServiceInitError::TlsFingerprint(e)),
        }
    }

    /// The paths the server reads and writes for Pair.
    pub fn pair_state(&self) -> (p: &PairState)
        ensures
            p.tls_fingerprint_sha256@ == self.fingerprint(),
            p.bootstrap_token_path@ == self.token_hash_path(),
            p.registry_path@ == self.registry_path(),
    {
        &self.pair_state
    }

    /// The reply of a successful Pair: the Keeper's fingerprint.
    pub fn pair_response(&self) -> (r: PairResponse)
        ensures
            r.tls_fingerprint_sha256@ == self.fingerprint(),
    {
        PairResponse {
            tls_fingerprint_sha256: vstd::slice::slice_to_vec(
                self.pair_state.tls_fingerprint_sha256.as_slice(),
            ),
        }
    }

    /// Whether `event` is what `phase` waits for, and the phase is one that
    /// [`Self::pair_step`] leads to.
    pub open spec fn expects(phase: PairPhase, event: PairEvent) -> bool {
        match phase {
            PairPhase::Received => event is Request,
            PairPhase::LoadingRegistry { .. } => event is RegistryLoaded,
            PairPhase::ReadingTokenHash { registry, public_key, .. } => {
                &&& event is TokenHashRead
                &&& !registry.bootstrap_token_consumed
                &&& !registry.holds_key(public_key@)
            },
            PairPhase::SavingRegistry => event is RegistrySaved,
            PairPhase::RemovingTokenHash => event is TokenHashRemoved,
            PairPhase::Finished => false,
        }
    }

    /// One step of Pair: from the phase and what just happened, the next
    /// phase and what to do.
    pub fn pair_step(&self, phase: PairPhase, event: PairEvent) -> (r: (PairPhase, PairAction))
        requires
            Self::expects(phase, event),
        ensures
            phase is Received ==> request_outcome(self.fingerprint(), event->Request_0, r),
            phase matches PairPhase::LoadingRegistry { public_key, bootstrap_token }
                ==> registry_outcome(
                self.fingerprint(),
                public_key,
                bootstrap_token,
                event->RegistryLoaded_0,
                r,
            ),
            phase matches PairPhase::ReadingTokenHash { public_key, bootstrap_token, registry }
                ==> enrol_outcome(public_key, bootstrap_token, registry, event->TokenHashRead_0, r),
            phase is SavingRegistry ==> match event->RegistrySaved_0 {
                Err(e) => r.0 is Finished && is_refused_with(
                    r.1,
                    auth_error_code(e),
                    StatusDetail::Auth(e),
                ),
                Ok(_) => r.0 is RemovingTokenHash && r.1 is RemoveTokenHash,
            },
            phase is RemovingTokenHash ==> r.0 is Finished && is_answer(r.1, self.fingerprint()),
            // only a matching token ever enrols, only into an unconsumed registry
            r.1 is SaveRegistry ==> match phase {
                PairPhase::ReadingTokenHash { bootstrap_token, registry, .. } => {
                    &&& !registry.bootstrap_token_consumed
                    &&& saves_only_after_token(bootstrap_token, event->TokenHashRead_0, r)
                },
                _ => false,
            },
    {
        match phase {
            PairPhase::Received => {
                let req = match event {
                    PairEvent::Request(req) => req,
                    _ => {
                        assert(false);
                        return (PairPhase::Finished, PairAction::LoadRegistry);
                    },
                };
                let r = self.check_request(req);
                assert(r.1 is LoadRegistry || r.1 is Reply);
                r
            },
            PairPhase::LoadingRegistry { public_key, bootstrap_token } => {
                let loaded = match event {
                    PairEvent::RegistryLoaded(loaded) => loaded,
                    _ => {
                        assert(false);
                        return (PairPhase::Finished, PairAction::LoadRegistry);
                    },
                };
                match loaded {
                    Err(e) => (PairPhase::Finished, PairAction::Reply(Err(auth_status(e)))),
                    Ok(registry) => {
                        if registry.contains_public_key(&public_key) {
                            (PairPhase::Finished, PairAction::Reply(Ok(self.pair_response())))
                        } else if registry.bootstrap_token_consumed {
                            (
                                PairPhase::Finished,
                                PairAction::Reply(
                                    Err(
                                        RpcStatus {
                                            code: RpcCode::Unauthenticated,
                                            detail: StatusDetail::Text(
                                                "bootstrap token already consumed",
                                            ),
                                        },
                                    ),
                                ),
                            )
                        } else {
                            (
                                PairPhase::ReadingTokenHash { public_key, bootstrap_token, registry },
                                PairAction::ReadTokenHash,
                            )
                        }
                    },
                }
            },
            PairPhase::ReadingTokenHash { public_key, bootstrap_token, registry } => {
                let read = match event {
                    PairEvent::TokenHashRead(read) => read,
                    _ => {
                        assert(false);
                        return (PairPhase::Finished, PairAction::LoadRegistry);
                    },
                };
                Self::enrol(public_key, bootstrap_token, registry, read)
            },
            PairPhase::SavingRegistry => {
                let saved = match event {
                    PairEvent::RegistrySaved(saved) => saved,
                    _ => {
                        assert(false);
                        return (PairPhase::Finished, PairAction::LoadRegistry);
                    },
                };
                match saved {
                    Err(e) => (PairPhase::Finished, PairAction::Reply(Err(auth_status(e)))),
                    Ok(()) => (PairPhase::RemovingTokenHash, PairAction::RemoveTokenHash),
                }
            },
            PairPhase::RemovingTokenHash => {
                (PairPhase::Finished, PairAction::Reply(Ok(self.pair_response())))
            },
            PairPhase::Finished => {
                assert(false);
                (PairPhase::Finished, PairAction::LoadRegistry)
            },
        }
    }

    /// A refusal with a fixed message, ending the conversation.
    fn refuse(code: RpcCode, text: &'static str) -> (r: (PairPhase, PairAction))
        ensures
            r.0 is Finished,
            is_refusal(r.1, code, text@),
    {
        (
            PairPhase::Finished,
            PairAction::Reply(Err(RpcStatus { code, detail: StatusDetail::Text(text) })),
        )
    }

    /// Checks the request itself: key and signature lengths, the pinned
    /// fingerprint, and the signature over the Pair challenge.
    fn check_request(&self, req: PairRequest) -> (r: (PairPhase, PairAction))
        ensures
            request_outcome(self.fingerprint(), req, r),
    {
        let public_key = match parse_public_key_bytes(req.workstation_pubkey.as_slice()) {
            Ok(pk) => pk,
            Err(e) => {
                return (
                    PairPhase::Finished,
                    PairAction::Reply(
                        Err(RpcStatus { code: RpcCode::InvalidArgument, detail: StatusDetail::Auth(e) }),
                    ),
                );
            },
        };
        if req.tls_fingerprint_sha256.len() != 32 {
            return Self::refuse(RpcCode::InvalidArgument, "TLS fingerprint must be 32 bytes");
        }
        if !bytes_equal(req.tls_fingerprint_sha256.as_slice(), self.pair_state.tls_fingerprint_sha256.as_slice()) {
            return Self::refuse(RpcCode::Unauthenticated, "TLS fingerprint mismatch");
        }
        let signature = match parse_signature_bytes(req.workstation_signature.as_slice()) {
            Ok(sig) => sig,
            Err(e) => {
                return (
                    PairPhase::Finished,
                    PairAction::Reply(
                        Err(RpcStatus { code: RpcCode::InvalidArgument, detail: StatusDetail::Auth(e) }),
                    ),
                );
            },
        };
        let challenge = pair_challenge(&self.pair_state.tls_fingerprint_sha256, &public_key);
        match verify_signature(&public_key, challenge.as_slice(), &signature) {
            Ok(()) => (
                PairPhase::LoadingRegistry { public_key, bootstrap_token: req.bootstrap_token },
                PairAction::LoadRegistry,
            ),
            Err(_) => Self::refuse(
                RpcCode::Unauthenticated,
                "workstation signature verification failed",
            ),
        }
    }

    /// Checks the presented token against the stored hash and, when it
    /// matches, enrols the key and marks the token consumed.
    fn enrol(
        public_key: [u8; 32],
        bootstrap_token: String,
        registry: KeeperAuthRegistry,
        read: Result<String, TokenHashReadError>,
    ) -> (r: (PairPhase, PairAction))
        ensures
            enrol_outcome(public_key, bootstrap_token, registry, read, r),
            saves_only_after_token(bootstrap_token, read, r),
    {
        let stored_hash = match read {
            Err(TokenHashReadError::NotFound) => {
                return Self::refuse(RpcCode::Unauthenticated, "bootstrap token is not available");
            },
            Err(TokenHashReadError::Other(m)) => {
                return (
                    PairPhase::Finished,
                    PairAction::Reply(
                        Err(RpcStatus { code: RpcCode::Internal, detail: StatusDetail::ReadTokenHash(m) }),
                    ),
                );
            },
            Ok(h) => h,
        };
        match verify_against_hash(bootstrap_token.as_str(), stored_hash.as_str()) {
            Ok(true) => {
                let mut registry = registry;
                registry.add_public_key(&public_key);
                registry.bootstrap_token_consumed = true;
                (PairPhase::SavingRegistry, PairAction::SaveRegistry(registry))
            },
            _ => Self::refuse(RpcCode::Unauthenticated, "invalid bootstrap token"),
        }
    }
}

/// Whether two byte strings are equal.
pub fn bytes_equal(a: &[u8], b: &[u8]) -> (r: bool)
    ensures
        r == (a@ == b@),
{
    if a.len() != b.len() {
        return false;
    }
    let mut i: usize = 0;
    while i < a.len()
        invariant
            i <= a@.len() == b@.len(),
            forall|j: int| 0 <= j < i ==> a@[j] == b@[j],
        decreases a@.len() - i,
    {
        if a[i] != b[i] {
            return false;
        }
        i = i + 1;
    }
    assert(a@ =~= b@);
    true
}

} // verus!
