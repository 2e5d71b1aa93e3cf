//! `dobby pair` — the workstation pairs with a Keeper at an explicit
//! address, pinning the Keeper TLS certificate by its SHA-256 fingerprint.
//!
//! This module checks the command line, reads the Keeper endpoint out of
//! the address, builds the signed Pair request, checks the reply, decides
//! whether a presented certificate matches the pin, and builds the
//! pairing record that is saved afterwards. The network exchange and the
//! files are handled around it.

use vstd::prelude::*;

use crate::auth::{pair_challenge, pair_challenge_bytes, WorkstationKeypair, WorkstationPairing,
    AuthError};
use crate::auth::{ed25519_public_key_valid, ed25519_signature_valid};
use crate::crypto::sha256_digest;
use crate::hex::{all_lower_hex, encode, hex_decode_lower, hex_lower};
use crate::keeper_service::{
    is_loading, request_acceptable, request_outcome, PairAction, PairPhase, PairRequest,
    PairResponse,
};
use crate::text::{chars_of, starts_with};
use crate::tls::{fingerprint_sha256_bytes_from_der, parse_fingerprint_hex, TlsError};

verus! {

broadcast use vstd::string::group_string_axioms;

/// Arguments of `dobby pair`.
#[derive(Debug, Clone)]
pub struct PairArgs {
    /// Explicit Keeper address (`host:port`).
    pub address: Option<String>,
    /// One-time bootstrap token from `dobby keeper init`.
    pub token: Option<String>,
    /// Expected TLS cert SHA-256 fingerprint.
    pub fingerprint: Option<String>,
}

/// Where the Keeper listens.
#[derive(Debug, Clone, PartialEq, Eq)]
pub struct KeeperEndpoint {
    /// `host:port`, as written in the URI authority.
    pub address: String,
    /// The host part.
    pub host: String,
    /// The port.
    pub port: u16,
}

/// What `http::Uri` reads from a URI text: its host, port and authority.
#[derive(Debug, Clone)]
pub struct UriParts {
    /// `Uri::host`.
    pub host: Option<String>,
    /// `Uri::port_u16`.
    pub port: Option<u16>,
    /// `Uri::authority`, as text.
    pub authority: Option<String>,
}

/// Why pairing could not go on.
#[derive(Debug)]
pub enum PairError {
    /// No address was given; discovery is not implemented.
    NoAddress,
    /// The address does not parse as a URI.
    InvalidAddress,
    /// The address has no host.
    MissingHost,
    /// The address has no explicit port.
    MissingPort,
    /// The address has no `host:port` authority.
    MissingAuthority,
    /// `--token` was not given.
    MissingToken,
    /// `--fingerprint` was not given.
    MissingFingerprint,
    /// `--fingerprint` is not 64 lowercase hex digits.
    Fingerprint(TlsError),
    /// The Keeper answered with another fingerprint than the pinned one.
    FingerprintMismatch,
    /// Loading or saving workstation key material failed.
    Auth(AuthError),
    /// The connection or the RPC failed; the transport's description.
    Transport(String),
    /// The workstation config directory cannot be resolved.
    NoConfigDir,
}

impl PairError {
    /// The message shown to the operator for the errors this module
    /// raises itself.
    pub open spec fn text(self) -> Seq<char> {
        match self {
            PairError::NoAddress =>
                "mDNS auto-discovery is not implemented yet; pass Keeper address as host:port"@,
            PairError::InvalidAddress => "Keeper address must be host:port"@,
            PairError::MissingHost => "Keeper address must include a host"@,
            PairError::MissingPort => "Keeper address must include an explicit port"@,
            PairError::MissingAuthority => "Keeper address must include host:port authority"@,
            PairError::MissingToken => "missing --token from `dobby keeper init`"@,
            PairError::MissingFingerprint =>
                "missing --fingerprint from `dobby keeper show-fingerprint`"@,
            PairError::FingerprintMismatch =>
                "Keeper Pair response returned a different TLS fingerprint"@,
            PairError::NoConfigDir => "HOME is not set; cannot resolve ~/.config/dobby"@,
            _ => Seq::empty(),
        }
    }

    /// The message of an error raised by this module; errors carried from
    /// elsewhere describe themselves.
    pub fn message(&self) -> (m: String)
        ensures
            m@ == self.text(),
    {
        match self {
            PairError::NoAddress => String::from_str(
                "mDNS auto-discovery is not implemented yet; pass Keeper address as host:port",
            ),
            PairError::InvalidAddress => String::from_str("Keeper address must be host:port"),
            PairError::MissingHost => String::from_str("Keeper address must include a host"),
            PairError::MissingPort => String::from_str(
                "Keeper address must include an explicit port",
            ),
            PairError::MissingAuthority => String::from_str(
                "Keeper address must include host:port authority",
            ),
            PairError::MissingToken => String::from_str("missing --token from `dobby keeper init`"),
            PairError::MissingFingerprint => String::from_str(
                "missing --fingerprint from `dobby keeper show-fingerprint`",
            ),
            PairError::FingerprintMismatch => String::from_str(
                "Keeper Pair response returned a different TLS fingerprint",
            ),
            PairError::NoConfigDir => String::from_str(
                "HOME is not set; cannot resolve ~/.config/dobby",
            ),
            _ => String::new(),
        }
    }
}

// ── endpoint ─────────────────────────────────────────────────────────────

/// The parts that `http::Uri` reads from `text`, or `None` where it
/// refuses the text.
pub uninterp spec fn uri_parts_of(text: Seq<char>) -> Option<UriParts>;

/// Parses `text` as a URI and reads its host, port and authority.
///
/// Trusted: calls `FromStr` of `http::Uri`, then `Uri::host`,
/// `Uri::port_u16` and `Uri::authority`. Claims that the parts are a
/// function of the text, and, as `Uri::host` is the host of
/// `Uri::authority`, that there is a host exactly when there is an
/// authority.
#[verifier::external_body]
fn parse_uri(text: &str) -> (r: Option<UriParts>)
    ensures
        r == uri_parts_of(text@),
        r matches Some(p) ==> (p.host is Some <==> p.authority is Some),
{
    match text.parse::<http::Uri>() {
        Ok(uri) => Some(UriParts {
            host: uri.host().map(String::from),
            port: uri.port_u16(),
            authority: uri.authority().map(|a| String::from(a.as_str())),
        }),
        Err(_) => None,
    }
}

/// The URI text for an address: as given when it names the `http` or
/// `https` scheme, else with `https://` in front.
pub open spec fn uri_text(address: Seq<char>) -> Seq<char> {
    if address.len() >= 7 && address.subrange(0, 7) == "http://"@ || address.len() >= 8
        && address.subrange(0, 8) == "https://"@ {
        address
    } else {
        "https://"@ + address
    }
}

/// The endpoint read from the parts of a URI, or the first part missing.
pub open spec fn endpoint_outcome(parts: Option<UriParts>, r: Result<KeeperEndpoint, PairError>) -> bool {
    match parts {
        None => r matches Err(PairError::InvalidAddress),
        Some(p) => match (p.host, p.port, p.authority) {
            (None, _, _) => r matches Err(PairError::MissingHost),
            (Some(_), None, _) => r matches Err(PairError::MissingPort),
            (Some(_), Some(_), None) => r matches Err(PairError::MissingAuthority),
            (Some(h), Some(port), Some(a)) => r matches Ok(e) && e.host@ == h@ && e.port == port
                && e.address@ == a@,
        },
    }
}

/// Builds the endpoint from what the URI parser read.
pub fn endpoint_from_uri(parts: Option<UriParts>) -> (r: Result<KeeperEndpoint, PairError>)
    ensures
        endpoint_outcome(parts, r),
{
    match parts {
        None => Err(PairError::InvalidAddress),
        Some(p) => {
            let host = match p.host {
                Some(h) => h,
                None => return Err(PairError::MissingHost),
            };
            let port = match p.port {
                Some(port) => port,
                None => return Err(PairError::MissingPort),
            };
            let address = match p.authority {
                Some(a) => a,
                None => return Err(PairError::MissingAuthority),
            };
            Ok(KeeperEndpoint { address, host, port })
        },
    }
}

/// Builds the URI text for an address.
fn address_uri_text(address: &str) -> (s: String)
    ensures
        s@ == uri_text(address@),
{
    let chars = chars_of(address);
    let http: Vec<char> = vec!['h', 't', 't', 'p', ':', '/', '/'];
    let https: Vec<char> = vec!['h', 't', 't', 'p', 's', ':', '/', '/'];
    proof {
        reveal_strlit("http://");
        reveal_strlit("https://");
        assert(http@ == "http://"@);
        assert(https@ == "https://"@);
    }
    if starts_with(chars.as_slice(), http.as_slice()) || starts_with(
        chars.as_slice(),
        https.as_slice(),
    ) {
        String::from_str(address)
    } else {
        let mut s = String::from_str("https://");
        s.append(address);
        s
    }
}

/// Reads the Keeper endpoint from the `address` argument.
pub fn parse_endpoint(address: Option<&str>) -> (r: Result<KeeperEndpoint, PairError>)
    ensures
        address is None ==> r matches Err(PairError::NoAddress),
        address matches Some(a) ==> endpoint_outcome(uri_parts_of(uri_text(a@)), r),
{
    match address {
        None => Err(PairError::NoAddress),
        Some(a) => {
            let text = address_uri_text(a);
            endpoint_from_uri(parse_uri(text.as_str()))
        },
    }
}

// ── arguments ────────────────────────────────────────────────────────────

/// What `dobby pair` goes on with once its arguments check out.
#[derive(Debug, Clone)]
pub struct PairInputs {
    /// Where the Keeper listens.
    pub endpoint: KeeperEndpoint,
    /// The bootstrap token.
    pub token: String,
    /// The fingerprint as given.
    pub fingerprint_hex: String,
    /// The pinned fingerprint bytes.
    pub fingerprint: [u8; 32],
}

/// The URI parser read a host, a port and an authority.
pub open spec fn uri_complete(parts: Option<UriParts>) -> bool {
    parts matches Some(p) && p.host is Some && p.port is Some && p.authority is Some
}

/// What checking the arguments gives: the first of endpoint, token,
/// fingerprint presence and fingerprint form that fails, or the inputs.
pub open spec fn check_args_outcome(args: PairArgs, r: Result<PairInputs, PairError>) -> bool {
    match args.address {
        None => r matches Err(PairError::NoAddress),
        Some(a) => {
            let parts = uri_parts_of(uri_text(a@));
            if !uri_complete(parts) {
                match r {
                    Ok(_) => false,
                    Err(e) => endpoint_outcome(parts, Err(e)),
                }
            } else {
                match args.token {
                    None => r matches Err(PairError::MissingToken),
                    Some(t) => match args.fingerprint {
                        None => r matches Err(PairError::MissingFingerprint),
                        Some(f) => if f@.len() == 64 && all_lower_hex(f@) {
                            match r {
                                Ok(inp) => endpoint_outcome(parts, Ok(inp.endpoint))
                                    && inp.token@ == t@ && inp.fingerprint_hex@ == f@
                                    && inp.fingerprint@ == hex_decode_lower(f@),
                                Err(_) => false,
                            }
                        } else {
                            r matches Err(PairError::Fingerprint(TlsError::InvalidFingerprintHex))
                        },
                    },
                }
            }
        },
    }
}

/// Checks the arguments in the order the command does: the endpoint, then
/// the token, then the fingerprint's presence and form.
pub fn check_args(args: &PairArgs) -> (r: Result<PairInputs, PairError>)
    ensures
        check_args_outcome(*args, r),
{
    let endpoint = match &args.address {
        Some(a) => match parse_endpoint(Some(a.as_str())) {
            Ok(e) => e,
            Err(e) => return Err(e),
        },
        None => return Err(PairError::NoAddress),
    };
    let token = match &args.token {
        Some(t) => t.clone(),
        None => return Err(PairError::MissingToken),
    };
    let fingerprint_hex = match &args.fingerprint {
        Some(f) => f.clone(),
        None => return Err(PairError::MissingFingerprint),
    };
    let fingerprint = match parse_fingerprint_hex(fingerprint_hex.as_str()) {
        Ok(b) => b,
        Err(e) => return Err(PairError::Fingerprint(e)),
    };
    Ok(PairInputs { endpoint, token, fingerprint_hex, fingerprint })
}

// ── request, reply, pin ──────────────────────────────────────────────────

/// Builds the Pair request: the workstation public key, the token, the
/// pinned fingerprint, and the signature over the Pair challenge. The
/// Keeper whose fingerprint was pinned finds it acceptable.
pub fn build_pair_request(keypair: &WorkstationKeypair, fingerprint: &[u8; 32], token: &str) -> (req:
    PairRequest)
    ensures
        req.workstation_pubkey@ == keypair.public_key(),
        req.bootstrap_token@ == token@,
        req.tls_fingerprint_sha256@ == fingerprint@,
        ed25519_signature_valid(
            keypair.public_key(),
            pair_challenge_bytes(fingerprint@, keypair.public_key()),
            req.workstation_signature@,
        ),
        request_acceptable(
            fingerprint@,
            req.workstation_pubkey@,
            req.tls_fingerprint_sha256@,
            req.workstation_signature@,
        ),
{
    keypair.public_key_is_valid();
    let public_key = keypair.public_key_bytes();
    let challenge = pair_challenge(fingerprint, &public_key);
    let signature = keypair.sign(challenge.as_slice());
    PairRequest {
        workstation_pubkey: vstd::slice::slice_to_vec(&public_key),
        bootstrap_token: String::from_str(token),
        tls_fingerprint_sha256: vstd::slice::slice_to_vec(fingerprint),
        workstation_signature: vstd::slice::slice_to_vec(&signature),
    }
}

/// What [`build_pair_request`] builds for the pinned fingerprint passes the
/// request checks of the Keeper whose fingerprint it is: the Keeper goes on
/// to load its registry for the request's key and token.
pub proof fn law_built_request_passes_keeper_checks(
    own: Seq<u8>,
    req: PairRequest,
    r: (PairPhase, PairAction),
)
    requires
        request_acceptable(
            own,
            req.workstation_pubkey@,
            req.tls_fingerprint_sha256@,
            req.workstation_signature@,
        ),
        request_outcome(own, req, r),
    ensures
        r.1 is LoadRegistry,
        is_loading(r.0, req.workstation_pubkey@, req.bootstrap_token),
{
}

/// Checks that the Keeper answered with the pinned fingerprint.
pub fn check_pair_response(response: &PairResponse, expected: &[u8; 32]) -> (r: Result<(), PairError>)
    ensures
        r is Ok <==> response.tls_fingerprint_sha256@ == expected@,
        r is Err ==> r matches Err(PairError::FingerprintMismatch),
{
    if crate::keeper_service::bytes_equal(response.tls_fingerprint_sha256.as_slice(), expected) {
        Ok(())
    } else {
        Err(PairError::FingerprintMismatch)
    }
}

/// Whether a certificate the Keeper presents matches the pin: its SHA-256
/// fingerprint is the expected one.
pub fn certificate_matches_pin(end_entity_der: &[u8], expected: &[u8; 32]) -> (b: bool)
    ensures
        b == (sha256_digest(end_entity_der@)@ == expected@),
{
    let actual = fingerprint_sha256_bytes_from_der(end_entity_der);
    crate::keeper_service::bytes_equal(&actual, expected)
}

/// The pairing record saved on the workstation.
pub fn pairing_record(endpoint: &KeeperEndpoint, fingerprint_hex: &str, public_key: &[u8; 32]) -> (p:
    WorkstationPairing)
    ensures
        p.keeper_address@ == endpoint.address@,
        p.tls_fingerprint_sha256@ == fingerprint_hex@,
        p.workstation_pubkey@ == hex_lower(public_key@),
{
    WorkstationPairing {
        keeper_address: endpoint.address.clone(),
        tls_fingerprint_sha256: String::from_str(fingerprint_hex),
        workstation_pubkey: encode(public_key),
    }
}

} // verus!
