//! Keeper TLS identity: the SHA-256 fingerprint of the host certificate in
//! DER form, which the CLI pins during trust-on-first-use pairing, and the
//! extraction of that DER from PEM text.

use vstd::prelude::*;
use vstd::utf8::{decode_utf8, encode_utf8, valid_utf8};

use base64::Engine;

use crate::crypto::{sha256, sha256_digest};
use crate::hex::{
    all_lower_hex, decode_hex_32, decode_to_array_32, encode, hex_decode_lower, hex_lower,
    is_lower_hex, lemma_decode_hex_32_lower, lemma_hex_lower_is_lower_hex, lemma_lower_hex_utf8,
};
use crate::net::IpAddress;
use crate::x509::{
    ca_profile, generate_key_pair, host_profile, is_ca_profile, is_host_profile, issued_from,
    key_pair_pem, names_encodable, params_for_profile, pem_armoured, pem_holds_der,
    profile_params, self_signed, signed_by, AltName, CertificateProfile,
};
use crate::text::{
    chars_of, is_unicode_whitespace, is_whitespace, law_without_whitespace_has_none,
    law_without_whitespace_ignores_insertion, without_whitespace,
};

verus! {

broadcast use vstd::string::group_string_axioms;

/// `core::str::Utf8Error`, carried through as an opaque value.
#[verifier::external_type_specification]
#[verifier::external_body]
pub struct ExUtf8Error(core::str::Utf8Error);

/// `base64::DecodeError`, carried through as an opaque value.
#[verifier::external_type_specification]
#[verifier::external_body]
pub struct ExDecodeError(base64::DecodeError);

/// All artefacts of a Keeper TLS identity.
#[derive(Debug)]
pub struct TlsArtifacts {
    /// CA certificate (PEM, public).
    pub ca_cert_pem: String,
    /// CA private key (PEM).
    pub ca_key_pem: String,
    /// Host (Keeper daemon) certificate, signed by the CA (PEM, public).
    pub host_cert_pem: String,
    /// Host private key (PEM).
    pub host_key_pem: String,
    /// SHA-256 fingerprint of the host cert in DER form, lowercase hex.
    pub host_fingerprint_sha256: String,
}

/// Errors from TLS material handling.
#[derive(Debug)]
pub enum TlsError {
    /// Something went wrong inside rcgen.
    Rcgen(rcgen::Error),
    /// Certificate PEM was not valid UTF-8.
    PemUtf8(core::str::Utf8Error),
    /// Certificate PEM did not contain a certificate block.
    MissingCertificateBlock,
    /// Certificate PEM base64 payload failed to decode.
    PemBase64(base64::DecodeError),
    /// Fingerprint hex was not exactly 64 lowercase hex digits.
    InvalidFingerprintHex,
    /// Fingerprint hex failed to decode.
    DecodeFingerprint(const_hex::FromHexError),
}

/// What the standard-alphabet, padded base64 engine decodes `input` to.
pub uninterp spec fn base64_standard_decoded(input: Seq<u8>) -> Option<Seq<u8>>;

/// Decodes standard base64.
///
/// Trusted: calls `base64::engine::general_purpose::STANDARD.decode`; the
/// outcome is a function of the input. Which `DecodeError` comes back is
/// left unsaid.
#[verifier::external_body]
fn base64_decode(input: &[u8]) -> (r: Result<Vec<u8>, base64::DecodeError>)
    ensures
        r is Ok <==> base64_standard_decoded(input@) is Some,
        r matches Ok(v) ==> base64_standard_decoded(input@) == Some(v@),
{
    base64::engine::general_purpose::STANDARD.decode(input)
}

/// Reads `bytes` as UTF-8 text.
///
/// Trusted: calls `core::str::from_utf8`, which per its documentation
/// succeeds exactly on valid UTF-8 and then views the same bytes as text.
#[verifier::external_body]
fn utf8_text(bytes: &[u8]) -> (r: Result<&str, core::str::Utf8Error>)
    ensures
        r is Ok <==> valid_utf8(bytes@),
        r matches Ok(s) ==> s@ == decode_utf8(bytes@),
{
    core::str::from_utf8(bytes)
}

// ── fingerprints ─────────────────────────────────────────────────────────

/// The lowercase-hex SHA-256 fingerprint of `der`.
pub open spec fn fingerprint_hex(der: Seq<u8>) -> Seq<char> {
    hex_lower(sha256_digest(der)@)
}

/// Computes the raw SHA-256 fingerprint bytes of a DER certificate.
pub fn fingerprint_sha256_bytes_from_der(cert_der: &[u8]) -> (r: [u8; 32])
    ensures
        r == sha256_digest(cert_der@),
{
    sha256(cert_der)
}

/// Computes the lowercase-hex SHA-256 fingerprint of a DER certificate:
/// always 64 lowercase hex digits.
pub fn fingerprint_sha256_hex_from_der(cert_der: &[u8]) -> (r: String)
    ensures
        r@ == fingerprint_hex(cert_der@),
        r@.len() == 64,
        all_lower_hex(r@),
{
    let digest = fingerprint_sha256_bytes_from_der(cert_der);
    proof {
        lemma_hex_lower_is_lower_hex(digest@);
    }
    encode(&digest)
}

/// Parses a lowercase-hex SHA-256 fingerprint into raw bytes.
pub fn parse_fingerprint_hex(fingerprint: &str) -> (r: Result<[u8; 32], TlsError>)
    ensures
        r is Ok <==> fingerprint@.len() == 64 && all_lower_hex(fingerprint@),
        r matches Ok(bytes) ==> bytes@ == hex_decode_lower(fingerprint@),
        r matches Ok(bytes) ==> hex_lower(bytes@) == fingerprint@,
        r is Err ==> r matches Err(TlsError::InvalidFingerprintHex),
{
    let chars = chars_of(fingerprint);
    if chars.len() != 64 || !is_lower_hex(chars.as_slice()) {
        return Err(TlsError::InvalidFingerprintHex);
    }
    proof {
        lemma_lower_hex_utf8(fingerprint@);
        lemma_decode_hex_32_lower(fingerprint@);
        crate::hex::lemma_hex_decode_round_trip(fingerprint@);
    }
    match decode_to_array_32(fingerprint.as_bytes()) {
        Ok(bytes) => Ok(bytes),
        Err(e) => Err(TlsError::DecodeFingerprint(e)),
    }
}

/// Parsing gives back the bytes whose fingerprint text was printed.
pub proof fn lemma_fingerprint_hex_round_trip(der: Seq<u8>)
    ensures
        fingerprint_hex(der).len() == 64,
        all_lower_hex(fingerprint_hex(der)),
        hex_decode_lower(fingerprint_hex(der)) == sha256_digest(der)@,
{
    lemma_hex_lower_is_lower_hex(sha256_digest(der)@);
    crate::hex::lemma_hex_round_trip(sha256_digest(der)@);
}

/// Packages generated TLS material, computing the host fingerprint from
/// the DER form of the host certificate.
pub fn assemble_artifacts(
    ca_cert_pem: String,
    ca_key_pem: String,
    host_cert_pem: String,
    host_key_pem: String,
    host_der: &[u8],
) -> (a: TlsArtifacts)
    ensures
        a.ca_cert_pem == ca_cert_pem,
        a.ca_key_pem == ca_key_pem,
        a.host_cert_pem == host_cert_pem,
        a.host_key_pem == host_key_pem,
        a.host_fingerprint_sha256@ == fingerprint_hex(host_der@),
{
    TlsArtifacts {
        ca_cert_pem,
        ca_key_pem,
        host_cert_pem,
        host_key_pem,
        host_fingerprint_sha256: fingerprint_sha256_hex_from_der(host_der),
    }
}

/// `ca_pem` is a self-signed CA certificate issued from the Keeper CA
/// profile, and `host_pem` a certificate issued from the host profile for
/// `keeper_ip`, naming that CA as its issuer.
pub open spec fn keeper_certificates(ca_pem: Seq<char>, host_pem: Seq<char>, keeper_ip: IpAddress) -> bool {
    exists|
        ca: CertificateProfile,
        host: CertificateProfile,
        ca_params: rcgen::CertificateParams,
        host_params: rcgen::CertificateParams,
    |
        #![trigger params_for_profile(ca_params, ca), params_for_profile(host_params, host)]
        {
            &&& is_ca_profile(ca)
            &&& is_host_profile(host, keeper_ip)
            &&& host.subject_alt_names@.contains(AltName::Ip(keeper_ip))
            &&& params_for_profile(ca_params, ca)
            &&& params_for_profile(host_params, host)
            &&& pem_certificate_der(encode_utf8(ca_pem)) matches Some(ca_der) && issued_from(
                ca_der,
                ca_params,
                ca_params,
            )
            &&& pem_certificate_der(encode_utf8(host_pem)) matches Some(host_der) && issued_from(
                host_der,
                host_params,
                ca_params,
            )
        }
}

/// The host certificate of a Keeper's TLS material names the Keeper's
/// address: it was issued, by the CA, from parameters made of a profile
/// whose alternative names hold `keeper_ip`.
pub proof fn law_host_certificate_names_keeper_ip(
    ca_pem: Seq<char>,
    host_pem: Seq<char>,
    keeper_ip: IpAddress,
)
    requires
        keeper_certificates(ca_pem, host_pem, keeper_ip),
    ensures
        pem_certificate_der(encode_utf8(host_pem)) is Some,
        exists|host: CertificateProfile, host_params: rcgen::CertificateParams, ca_params: rcgen::CertificateParams|
            #![trigger params_for_profile(host_params, host), issued_from(pem_certificate_der(encode_utf8(host_pem))->0, host_params, ca_params)]
            {
                &&& host.subject_alt_names@.contains(AltName::Ip(keeper_ip))
                &&& params_for_profile(host_params, host)
                &&& issued_from(pem_certificate_der(encode_utf8(host_pem))->0, host_params, ca_params)
            },
{
    let (ca, host, ca_params, host_params) = choose|
        ca: CertificateProfile,
        host: CertificateProfile,
        ca_params: rcgen::CertificateParams,
        host_params: rcgen::CertificateParams,
    |
        #![trigger params_for_profile(ca_params, ca), params_for_profile(host_params, host)]
        {
            &&& is_ca_profile(ca)
            &&& is_host_profile(host, keeper_ip)
            &&& host.subject_alt_names@.contains(AltName::Ip(keeper_ip))
            &&& params_for_profile(ca_params, ca)
            &&& params_for_profile(host_params, host)
            &&& pem_certificate_der(encode_utf8(ca_pem)) matches Some(ca_der) && issued_from(
                ca_der,
                ca_params,
                ca_params,
            )
            &&& pem_certificate_der(encode_utf8(host_pem)) matches Some(host_der) && issued_from(
                host_der,
                host_params,
                ca_params,
            )
        };
    assert(issued_from(pem_certificate_der(encode_utf8(host_pem))->0, host_params, ca_params));
}

/// Generates the CA and the host certificate for a Keeper listening on
/// `keeper_ip`: a self-signed CA, and a host certificate it signs whose
/// subject alternative names are `keeper_ip`, `localhost` and
/// `dobby-keeper`. The fingerprint reported is that of the host
/// certificate's DER form.
pub fn generate(keeper_ip: IpAddress) -> (r: Result<TlsArtifacts, TlsError>)
    ensures
        r matches Ok(a) ==> a.host_fingerprint_sha256@.len() == 64 && all_lower_hex(
            a.host_fingerprint_sha256@,
        ),
        r matches Ok(a) ==> pem_certificate_der(encode_utf8(a.host_cert_pem@)) matches Some(d)
            && a.host_fingerprint_sha256@ == fingerprint_hex(d),
        r matches Ok(a) ==> keeper_certificates(a.ca_cert_pem@, a.host_cert_pem@, keeper_ip),
        r matches Ok(a) ==> pem_armoured("CERTIFICATE"@, a.ca_cert_pem@) && pem_armoured(
            "CERTIFICATE"@,
            a.host_cert_pem@,
        ),
        r matches Ok(a) ==> pem_armoured("PRIVATE KEY"@, a.ca_key_pem@) && pem_armoured(
            "PRIVATE KEY"@,
            a.host_key_pem@,
        ),
        r matches Err(e) ==> e is Rcgen,
{
    // ── CA
    let ca_key = match generate_key_pair() {
        Ok(k) => k,
        Err(e) => return Err(TlsError::Rcgen(e)),
    };
    let ca = ca_profile();
    let ca_params = match profile_params(&ca) {
        Ok(p) => p,
        Err(e) => return Err(TlsError::Rcgen(e)),
    };
    let (ca_cert_pem, _ca_der) = match self_signed(&ca_params, &ca_key) {
        Ok(c) => c,
        Err(e) => return Err(TlsError::Rcgen(e)),
    };
    let ca_key_pem = key_pair_pem(&ca_key);
    // ── host
    let host = host_profile(keeper_ip);
    proof {
        reveal_strlit("localhost");
        reveal_strlit("dobby-keeper");
        assert(names_encodable(host.subject_alt_names@));
    }
    let host_params = match profile_params(&host) {
        Ok(p) => p,
        Err(e) => return Err(TlsError::Rcgen(e)),
    };
    let host_key = match generate_key_pair() {
        Ok(k) => k,
        Err(e) => return Err(TlsError::Rcgen(e)),
    };
    let ghost ca_params_g = ca_params;
    let (host_cert_pem, host_der) = match signed_by(&host_params, &host_key, ca_params, ca_key) {
        Ok(c) => c,
        Err(e) => return Err(TlsError::Rcgen(e)),
    };
    let host_key_pem = key_pair_pem(&host_key);
    proof {
        lemma_fingerprint_hex_round_trip(host_der@);
        assert(params_for_profile(ca_params_g, ca));
        assert(params_for_profile(host_params, host));
        assert(keeper_certificates(ca_cert_pem@, host_cert_pem@, keeper_ip));
    }
    Ok(assemble_artifacts(ca_cert_pem, ca_key_pem, host_cert_pem, host_key_pem, host_der.as_slice()))
}

// ── PEM ──────────────────────────────────────────────────────────────────

/// `-----BEGIN CERTIFICATE-----`.
pub open spec fn begin_marker() -> Seq<char> {
    "-----BEGIN CERTIFICATE-----"@
}

/// `-----END CERTIFICATE-----`.
pub open spec fn end_marker() -> Seq<char> {
    "-----END CERTIFICATE-----"@
}

/// `m` occurs in `s` at `i`.
pub open spec fn matches_at(s: Seq<char>, m: Seq<char>, i: int) -> bool {
    s.subrange(i, i + m.len()) == m
}

/// `i` is where the first occurrence of `m` in `s` starts.
pub open spec fn is_first_match(s: Seq<char>, m: Seq<char>, i: int) -> bool {
    &&& 0 <= i <= s.len() - m.len()
    &&& matches_at(s, m, i)
    &&& forall|j: int| 0 <= j < i ==> !#[trigger] matches_at(s, m, j)
}

/// Where the first occurrence of `m` in `s` starts (`str::find`).
pub open spec fn find_text(s: Seq<char>, m: Seq<char>) -> Option<int> {
    if exists|i: int| is_first_match(s, m, i) {
        Some(choose|i: int| is_first_match(s, m, i))
    } else {
        None
    }
}

/// The base64 text of the first `CERTIFICATE` block of `text`, whitespace
/// removed: what follows the first begin marker, up to the first end marker
/// after it.
pub open spec fn certificate_payload(text: Seq<char>) -> Option<Seq<char>> {
    match find_text(text, begin_marker()) {
        None => None,
        Some(i) => {
            let rest = text.subrange(i + begin_marker().len(), text.len() as int);
            match find_text(rest, end_marker()) {
                None => None,
                Some(j) => Some(without_whitespace(rest.subrange(0, j))),
            }
        },
    }
}

/// Searches `s[from..]` for the first occurrence of `m`.
fn find_text_from(s: &Vec<char>, from: usize, m: &Vec<char>) -> (r: Option<usize>)
    requires
        from <= s@.len(),
    ensures
        r matches Some(i) ==> i + m@.len() <= s@.len(),
        r matches Some(i) ==> from <= i && find_text(s@.subrange(from as int, s@.len() as int), m@)
            == Some(i - from),
        r is None ==> find_text(s@.subrange(from as int, s@.len() as int), m@) is None,
{
    let ghost t = s@.subrange(from as int, s@.len() as int);
    if m.len() > s.len() - from {
        proof {
            assert forall|i: int| !is_first_match(t, m@, i) by {}
        }
        return None;
    }
    let mut i: usize = from;
    while i <= s.len() - m.len()
        invariant
            from <= i,
            m@.len() <= s@.len() - from,
            t == s@.subrange(from as int, s@.len() as int),
            i <= s@.len() - m@.len() + 1,
            forall|j: int| 0 <= j < i - from ==> !#[trigger] matches_at(t, m@, j),
        decreases s@.len() - i,
    {
        let mut k: usize = 0;
        let mut same = true;
        while k < m.len()
            invariant
                k <= m@.len(),
                from <= i,
                i + m@.len() <= s@.len(),
                same == (forall|q: int| 0 <= q < k ==> s@[i + q] == m@[q]),
            decreases m@.len() - k,
        {
            assert(i + k < s@.len());
            assert(s@.len() == s.len());
            if s[i + k] != m[k] {
                same = false;
            }
            k = k + 1;
        }
        proof {
            assert(t.subrange(i - from, i - from + m@.len()) =~= s@.subrange(
                i as int,
                i + m@.len(),
            ));
            if same {
                assert(s@.subrange(i as int, i + m@.len()) =~= m@);
            } else {
                let q = choose|q: int| 0 <= q < m@.len() && s@[i + q] != m@[q];
                assert(s@.subrange(i as int, i + m@.len())[q] != m@[q]);
            }
        }
        if same {
            proof {
                assert(is_first_match(t, m@, i - from));
                let k2 = choose|k2: int| is_first_match(t, m@, k2);
                if k2 < i - from {
                    assert(!matches_at(t, m@, k2));
                }
                if k2 > i - from {
                    assert(!matches_at(t, m@, i - from));
                }
            }
            return Some(i);
        }
        i = i + 1;
    }
    proof {
        assert forall|j: int| !is_first_match(t, m@, j) by {
            if is_first_match(t, m@, j) {
                assert(j < i - from);
            }
        }
    }
    None
}

/// Outcome of extracting the DER of the first certificate from PEM bytes.
pub open spec fn pem_certificate_der(pem: Seq<u8>) -> Option<Seq<u8>> {
    match certificate_payload(decode_utf8(pem)) {
        Some(payload) => base64_standard_decoded(encode_utf8(payload)),
        None => None,
    }
}

/// No character of `s` is a `-`.
pub open spec fn dash_free(s: Seq<char>) -> bool {
    forall|i: int| 0 <= i < s.len() ==> #[trigger] s[i] != '-'
}

/// `m`, which starts with `-`, occurs first in `pre + m + rest` right after
/// `pre` when `pre` holds no `-`.
proof fn lemma_first_match_after_dash_free(pre: Seq<char>, m: Seq<char>, rest: Seq<char>)
    requires
        dash_free(pre),
        m.len() > 0,
        m[0] == '-',
    ensures
        find_text(pre + m + rest, m) == Some(pre.len() as int),
{
    let t = pre + m + rest;
    assert(t.subrange(pre.len() as int, (pre.len() + m.len()) as int) =~= m);
    assert forall|j: int| 0 <= j < pre.len() implies !#[trigger] matches_at(t, m, j) by {
        if matches_at(t, m, j) {
            assert(t.subrange(j, j + m.len())[0] == m[0]);
            assert(t[j] == pre[j]);
        }
    }
    assert(is_first_match(t, m, pre.len() as int));
    let i = choose|i: int| is_first_match(t, m, i);
    if i < pre.len() {
        assert(matches_at(t, m, i));
    }
    if i > pre.len() {
        assert(!matches_at(t, m, pre.len() as int));
    }
}

/// The certificate block of `pre`, the begin marker, `body`, the end
/// marker and `post` carries `body` with its whitespace dropped, when
/// neither `pre` nor `body` holds a `-` (base64 never does).
proof fn lemma_certificate_payload_of_block(pre: Seq<char>, body: Seq<char>, post: Seq<char>)
    requires
        dash_free(pre),
        dash_free(body),
    ensures
        certificate_payload(pre + begin_marker() + body + end_marker() + post) == Some(
            without_whitespace(body),
        ),
{
    reveal_strlit("-----BEGIN CERTIFICATE-----");
    reveal_strlit("-----END CERTIFICATE-----");
    let b = begin_marker();
    let e = end_marker();
    let t = pre + b + body + e + post;
    assert(t =~= pre + b + (body + e + post));
    lemma_first_match_after_dash_free(pre, b, body + e + post);
    let rest = t.subrange((pre.len() + b.len()) as int, t.len() as int);
    assert(rest =~= body + e + post);
    lemma_first_match_after_dash_free(body, e, post);
    assert(rest.subrange(0, body.len() as int) =~= body);
}

/// The certificate text handed to the base64 decoder never holds
/// whitespace: no Unicode space, line feed, carriage return, tab or space.
pub proof fn law_certificate_payload_has_no_whitespace(text: Seq<char>)
    ensures
        certificate_payload(text) matches Some(p) ==> forall|i: int|
            0 <= i < p.len() ==> !is_unicode_whitespace(#[trigger] p[i]) && p[i] != '\n' && p[i]
                != '\r' && p[i] != '\t' && p[i] != ' ',
{
    if let Some(i) = find_text(text, begin_marker()) {
        let rest = text.subrange(i + begin_marker().len(), text.len() as int);
        if let Some(j) = find_text(rest, end_marker()) {
            law_without_whitespace_has_none(rest.subrange(0, j));
        }
    }
}

/// Whitespace inside a certificate block does not change the certificate:
/// the PEM with a whitespace character `c` (a carriage return before a line
/// feed, a tab, a space) between `a` and `b` gives the DER, or the failure,
/// that the PEM without it gives. `pre`, `a` and `b` hold no `-`, as text
/// before a PEM block and base64 do not.
pub proof fn law_pem_der_ignores_whitespace(
    pre: Seq<char>,
    a: Seq<char>,
    c: char,
    b: Seq<char>,
    post: Seq<char>,
)
    requires
        dash_free(pre),
        dash_free(a),
        dash_free(b),
        is_unicode_whitespace(c),
    ensures
        certificate_payload(pre + begin_marker() + (a + seq![c] + b) + end_marker() + post)
            is Some,
        certificate_payload(pre + begin_marker() + (a + seq![c] + b) + end_marker() + post)
            == certificate_payload(pre + begin_marker() + (a + b) + end_marker() + post),
        pem_certificate_der(
            encode_utf8(pre + begin_marker() + (a + seq![c] + b) + end_marker() + post),
        ) == pem_certificate_der(encode_utf8(pre + begin_marker() + (a + b) + end_marker() + post)),
{
    let with_c = a + seq![c] + b;
    assert forall|i: int| 0 <= i < with_c.len() implies #[trigger] with_c[i] != '-' by {
        if i < a.len() {
            assert(with_c[i] == a[i]);
        } else if i == a.len() {
            assert(with_c[i] == c);
        } else {
            assert(with_c[i] == b[i - a.len() - 1]);
        }
    }
    assert forall|i: int| 0 <= i < (a + b).len() implies #[trigger] (a + b)[i] != '-' by {
        if i < a.len() {
            assert((a + b)[i] == a[i]);
        } else {
            assert((a + b)[i] == b[i - a.len()]);
        }
    }
    lemma_certificate_payload_of_block(pre, with_c, post);
    lemma_certificate_payload_of_block(pre, a + b, post);
    law_without_whitespace_ignores_insertion(a, c, b);
    vstd::utf8::encode_utf8_decode_utf8(pre + begin_marker() + with_c + end_marker() + post);
    vstd::utf8::encode_utf8_decode_utf8(pre + begin_marker() + (a + b) + end_marker() + post);
}

/// Extracts the DER of the first `CERTIFICATE` block of `cert_pem`.
pub fn first_certificate_der_from_pem(cert_pem: &[u8]) -> (r: Result<Vec<u8>, TlsError>)
    ensures
        !valid_utf8(cert_pem@) <==> r matches Err(TlsError::PemUtf8(_)),
        valid_utf8(cert_pem@) ==> (certificate_payload(decode_utf8(cert_pem@)) is None <==> (r matches Err(
            TlsError::MissingCertificateBlock,
        ))),
        valid_utf8(cert_pem@) ==> (r is Ok <==> pem_certificate_der(cert_pem@) is Some),
        r matches Ok(der) ==> pem_certificate_der(cert_pem@) == Some(der@),
        r is Err ==> (r matches Err(TlsError::MissingCertificateBlock) || r matches Err(
            TlsError::PemBase64(_),
        ) || r matches Err(TlsError::PemUtf8(_))),
{
    let pem = match utf8_text(cert_pem) {
        Ok(s) => s,
        Err(e) => return Err(TlsError::PemUtf8(e)),
    };
    let text = chars_of(pem);
    let begin = chars_of("-----BEGIN CERTIFICATE-----");
    let end = chars_of("-----END CERTIFICATE-----");
    let ghost whole = text@;
    assert(whole.subrange(0, whole.len() as int) =~= whole);
    let start = match find_text_from(&text, 0, &begin) {
        Some(i) => {
            assert(i + begin@.len() <= text@.len());
            assert(text@.len() == text.len());
            i + begin.len()
        },
        None => return Err(TlsError::MissingCertificateBlock),
    };
    assert(start <= text@.len());
    let ghost rest = whole.subrange(start as int, whole.len() as int);
    let stop = match find_text_from(&text, start, &end) {
        Some(j) => j,
        None => return Err(TlsError::MissingCertificateBlock),
    };
    let ghost region = rest.subrange(0, stop - start);
    let mut payload = String::new();
    let mut k: usize = start;
    while k < stop
        invariant
            start <= k <= stop <= text@.len(),
            text@ == pem@,
            region == text@.subrange(start as int, stop as int),
            payload@ == without_whitespace(region.subrange(0, k - start)),
        decreases stop - k,
    {
        let c = text[k];
        proof {
            reveal(Seq::filter);
            assert(region.subrange(0, k + 1 - start).drop_last() =~= region.subrange(0, k - start));
            assert(region.subrange(0, k + 1 - start).last() == c);
        }
        if !is_whitespace(c) {
            payload.append(pem.substring_char(k, k + 1));
            proof {
                assert(pem@.subrange(k as int, k + 1) =~= seq![c]);
            }
        }
        k = k + 1;
    }
    assert(region.subrange(0, stop - start) =~= region);
    assert(region =~= rest.subrange(0, stop - start));
    match base64_decode(payload.as_str().as_bytes()) {
        Ok(der) => Ok(der),
        Err(e) => Err(TlsError::PemBase64(e)),
    }
}

/// What fingerprinting the PEM bytes `pem` gives: the digest of its first
/// certificate's DER, or the error of the first step that fails (UTF-8,
/// the certificate block, base64).
pub open spec fn pem_fingerprint_outcome(pem: Seq<u8>, r: Result<[u8; 32], TlsError>) -> bool {
    &&& (r is Ok <==> valid_utf8(pem) && pem_certificate_der(pem) is Some)
    &&& (r matches Ok(fp) ==> fp == sha256_digest(pem_certificate_der(pem)->0))
    &&& (!valid_utf8(pem) ==> (r matches Err(TlsError::PemUtf8(_))))
    &&& (valid_utf8(pem) && certificate_payload(decode_utf8(pem)) is None ==> (r matches Err(
        TlsError::MissingCertificateBlock,
    )))
    &&& (valid_utf8(pem) && certificate_payload(decode_utf8(pem)) is Some && r is Err ==> (r matches Err(
        TlsError::PemBase64(_),
    )))
}

/// Computes the raw SHA-256 fingerprint bytes of the first `CERTIFICATE`
/// PEM block in `cert_pem`.
pub fn fingerprint_sha256_bytes_from_pem(cert_pem: &[u8]) -> (r: Result<[u8; 32], TlsError>)
    ensures
        pem_fingerprint_outcome(cert_pem@, r),
{
    let der = first_certificate_der_from_pem(cert_pem)?;
    Ok(fingerprint_sha256_bytes_from_der(der.as_slice()))
}

/// Computes the lowercase-hex SHA-256 fingerprint of the first
/// `CERTIFICATE` PEM block in `cert_pem`.
pub fn fingerprint_sha256_hex_from_pem(cert_pem: &[u8]) -> (r: Result<String, TlsError>)
    ensures
        r is Ok <==> valid_utf8(cert_pem@) && pem_certificate_der(cert_pem@) is Some,
        r matches Ok(fp) ==> fp@ == fingerprint_hex(pem_certificate_der(cert_pem@)->0),
        !valid_utf8(cert_pem@) ==> r matches Err(TlsError::PemUtf8(_)),
        valid_utf8(cert_pem@) && certificate_payload(decode_utf8(cert_pem@)) is None ==> r matches Err(
            TlsError::MissingCertificateBlock,
        ),
        valid_utf8(cert_pem@) && certificate_payload(decode_utf8(cert_pem@)) is Some && r is Err
            ==> r matches Err(TlsError::PemBase64(_)),
{
    let bytes = fingerprint_sha256_bytes_from_pem(cert_pem)?;
    proof {
        lemma_hex_lower_is_lower_hex(bytes@);
    }
    Ok(encode(&bytes))
}

} // verus!
