//! The Keeper's certificate profiles, and their issuance through `rcgen`.
//!
//! A profile says what a certificate asserts: its subject, whether it is a
//! CA, its key usages and its subject alternative names. Key generation,
//! encoding and signing are `rcgen`'s; every certificate is made from a
//! freshly generated key, so nothing about the issued bytes is a function
//! of the profile.

use vstd::prelude::*;

use vstd::utf8::encode_utf8;

use crate::net::IpAddress;
use crate::tls::pem_certificate_der;

verus! {

/// `rcgen::KeyPair`, carried through as an opaque value.
#[verifier::external_type_specification]
#[verifier::external_body]
pub struct ExKeyPair(rcgen::KeyPair);

/// `rcgen::CertificateParams`, carried through as an opaque value.
#[verifier::external_type_specification]
#[verifier::external_body]
pub struct ExCertificateParams(rcgen::CertificateParams);

/// `rcgen::Error`, carried through as an opaque value.
#[verifier::external_type_specification]
#[verifier::external_body]
pub struct ExRcgenError(rcgen::Error);

/// `rcgen::SanType`, carried through as an opaque value.
#[verifier::external_type_specification]
#[verifier::external_body]
pub struct ExSanType(rcgen::SanType);

/// `rcgen::KeyUsagePurpose`, carried through as an opaque value.
#[verifier::external_type_specification]
#[verifier::external_body]
pub struct ExKeyUsagePurpose(rcgen::KeyUsagePurpose);

/// `rcgen::ExtendedKeyUsagePurpose`, carried through as an opaque value.
#[verifier::external_type_specification]
#[verifier::external_body]
pub struct ExExtendedKeyUsagePurpose(rcgen::ExtendedKeyUsagePurpose);

/// A key usage a certificate asserts.
#[derive(Debug, Clone, Copy, PartialEq, Eq, Structural)]
pub enum KeyUsage {
    /// `digitalSignature`.
    DigitalSignature,
    /// `keyEncipherment`.
    KeyEncipherment,
    /// `keyCertSign`.
    KeyCertSign,
    /// `cRLSign`.
    CrlSign,
}

/// An extended key usage a certificate asserts.
#[derive(Debug, Clone, Copy, PartialEq, Eq, Structural)]
pub enum ExtendedKeyUsage {
    /// TLS server authentication.
    ServerAuth,
    /// TLS client authentication.
    ClientAuth,
}

/// A subject alternative name.
#[derive(Debug, Clone, PartialEq, Eq)]
pub enum AltName {
    /// An IP address.
    Ip(IpAddress),
    /// A DNS name.
    Dns(String),
}

/// Whether a certificate may issue others.
#[derive(Debug, Clone, Copy, PartialEq, Eq, Structural)]
pub enum Authority {
    /// A CA with no path-length constraint.
    Ca,
    /// An end-entity certificate.
    Leaf,
}

/// What a certificate asserts.
#[derive(Debug, Clone, PartialEq, Eq)]
pub struct CertificateProfile {
    /// Subject common name.
    pub common_name: String,
    /// Subject organization.
    pub organization: String,
    /// CA or end entity.
    pub authority: Authority,
    /// Whether to include the authority key identifier extension.
    pub authority_key_identifier: bool,
    /// Key usages.
    pub key_usages: Vec<KeyUsage>,
    /// Extended key usages.
    pub extended_key_usages: Vec<ExtendedKeyUsage>,
    /// Subject alternative names.
    pub subject_alt_names: Vec<AltName>,
}

/// The Keeper CA: `Dobby Keeper CA` of `dobby`, an unconstrained CA that
/// signs certificates and CRLs.
pub open spec fn is_ca_profile(p: CertificateProfile) -> bool {
    &&& p.common_name@ == "Dobby Keeper CA"@
    &&& p.organization@ == "dobby"@
    &&& p.authority == Authority::Ca
    &&& !p.authority_key_identifier
    &&& p.key_usages@ == seq![KeyUsage::KeyCertSign, KeyUsage::CrlSign, KeyUsage::DigitalSignature]
    &&& p.extended_key_usages@.len() == 0
    &&& p.subject_alt_names@.len() == 0
}

/// The Keeper host certificate for `keeper_ip`: `Dobby Keeper` of `dobby`,
/// an end entity for server and client authentication, naming the Keeper
/// address, `localhost` and `dobby-keeper`.
pub open spec fn is_host_profile(p: CertificateProfile, keeper_ip: IpAddress) -> bool {
    &&& p.common_name@ == "Dobby Keeper"@
    &&& p.organization@ == "dobby"@
    &&& p.authority == Authority::Leaf
    &&& p.authority_key_identifier
    &&& p.key_usages@ == seq![KeyUsage::DigitalSignature, KeyUsage::KeyEncipherment]
    &&& p.extended_key_usages@ == seq![ExtendedKeyUsage::ServerAuth, ExtendedKeyUsage::ClientAuth]
    &&& p.subject_alt_names@.len() == 3
    &&& p.subject_alt_names@[0] == AltName::Ip(keeper_ip)
    &&& p.subject_alt_names@[1] matches AltName::Dns(d) && d@ == "localhost"@
    &&& p.subject_alt_names@[2] matches AltName::Dns(d) && d@ == "dobby-keeper"@
}

/// Some alternative name of `names` is the DNS name `dns`.
pub open spec fn names_dns(names: Seq<AltName>, dns: Seq<char>) -> bool {
    exists|i: int| 0 <= i < names.len() && (#[trigger] names[i] matches AltName::Dns(d) && d@ == dns)
}

/// The host certificate of a Keeper names the Keeper's own address, so
/// that a client connecting to that address accepts it, along with
/// `localhost` and `dobby-keeper`; it names no other address, and it is
/// no authority.
pub proof fn law_host_profile_names_keeper(p: CertificateProfile, keeper_ip: IpAddress)
    requires
        is_host_profile(p, keeper_ip),
    ensures
        p.subject_alt_names@.contains(AltName::Ip(keeper_ip)),
        names_dns(p.subject_alt_names@, "localhost"@),
        names_dns(p.subject_alt_names@, "dobby-keeper"@),
        forall|i: int|
            0 <= i < p.subject_alt_names@.len() && #[trigger] p.subject_alt_names@[i] is Ip
                ==> p.subject_alt_names@[i]->Ip_0 == keeper_ip,
        p.authority == Authority::Leaf,
{
    assert(p.subject_alt_names@[0] == AltName::Ip(keeper_ip));
    assert(p.subject_alt_names@[1] matches AltName::Dns(d) && d@ == "localhost"@);
    assert(p.subject_alt_names@[2] matches AltName::Dns(d) && d@ == "dobby-keeper"@);
}

/// The profile of the Keeper CA.
pub fn ca_profile() -> (p: CertificateProfile)
    ensures
        is_ca_profile(p),
{
    let mut key_usages: Vec<KeyUsage> = Vec::new();
    key_usages.push(KeyUsage::KeyCertSign);
    key_usages.push(KeyUsage::CrlSign);
    key_usages.push(KeyUsage::DigitalSignature);
    let p = CertificateProfile {
        common_name: String::from_str("Dobby Keeper CA"),
        organization: String::from_str("dobby"),
        authority: Authority::Ca,
        authority_key_identifier: false,
        key_usages,
        extended_key_usages: Vec::new(),
        subject_alt_names: Vec::new(),
    };
    assert(p.key_usages@ =~= seq![
        KeyUsage::KeyCertSign,
        KeyUsage::CrlSign,
        KeyUsage::DigitalSignature,
    ]);
    p
}

/// The profile of the Keeper host certificate for `keeper_ip`.
pub fn host_profile(keeper_ip: IpAddress) -> (p: CertificateProfile)
    ensures
        is_host_profile(p, keeper_ip),
        p.subject_alt_names@.contains(AltName::Ip(keeper_ip)),
        names_dns(p.subject_alt_names@, "localhost"@),
        names_dns(p.subject_alt_names@, "dobby-keeper"@),
        p.authority == Authority::Leaf,
{
    let mut key_usages: Vec<KeyUsage> = Vec::new();
    key_usages.push(KeyUsage::DigitalSignature);
    key_usages.push(KeyUsage::KeyEncipherment);
    let mut extended: Vec<ExtendedKeyUsage> = Vec::new();
    extended.push(ExtendedKeyUsage::ServerAuth);
    extended.push(ExtendedKeyUsage::ClientAuth);
    let mut names: Vec<AltName> = Vec::new();
    names.push(AltName::Ip(keeper_ip));
    names.push(AltName::Dns(String::from_str("localhost")));
    names.push(AltName::Dns(String::from_str("dobby-keeper")));
    let p = CertificateProfile {
        common_name: String::from_str("Dobby Keeper"),
        organization: String::from_str("dobby"),
        authority: Authority::Leaf,
        authority_key_identifier: true,
        key_usages,
        extended_key_usages: extended,
        subject_alt_names: names,
    };
    assert(p.key_usages@ =~= seq![KeyUsage::DigitalSignature, KeyUsage::KeyEncipherment]);
    assert(p.extended_key_usages@ =~= seq![
        ExtendedKeyUsage::ServerAuth,
        ExtendedKeyUsage::ClientAuth,
    ]);
    p
}

/// Every character is ASCII.
pub open spec fn all_ascii(s: Seq<char>) -> bool {
    forall|i: int| 0 <= i < s.len() ==> (#[trigger] s[i] as u32) < 128
}

/// Every DNS name of the profile is ASCII, as an IA5 string must be.
pub open spec fn names_encodable(names: Seq<AltName>) -> bool {
    forall|i: int|
        0 <= i < names.len() ==> (#[trigger] names[i] matches AltName::Dns(d) ==> all_ascii(d@))
}

// ── rcgen ────────────────────────────────────────────────────────────────

/// `k` is the `rcgen` key usage that stands for `u`.
pub uninterp spec fn key_usage_is(k: rcgen::KeyUsagePurpose, u: KeyUsage) -> bool;

/// `k` is the `rcgen` extended key usage that stands for `u`.
pub uninterp spec fn extended_usage_is(k: rcgen::ExtendedKeyUsagePurpose, u: ExtendedKeyUsage) -> bool;

/// `s` is the `rcgen` subject alternative name that stands for `n`.
pub uninterp spec fn alt_name_is(s: rcgen::SanType, n: AltName) -> bool;

/// `p` are certificate parameters with this subject (common name and
/// organization), authority, authority key identifier choice, key usages,
/// extended key usages and subject alternative names, in these orders, and
/// `rcgen`'s defaults otherwise.
pub uninterp spec fn params_are(
    p: rcgen::CertificateParams,
    common_name: Seq<char>,
    organization: Seq<char>,
    authority: Authority,
    authority_key_identifier: bool,
    key_usages: Seq<rcgen::KeyUsagePurpose>,
    extended_key_usages: Seq<rcgen::ExtendedKeyUsagePurpose>,
    subject_alt_names: Seq<rcgen::SanType>,
) -> bool;

/// `der` is a certificate that `rcgen` issued for the parameters `subject`,
/// naming as its issuer the subject of the parameters `issuer` (which are
/// `subject` itself for a self-signed certificate).
pub uninterp spec fn issued_from(
    der: Seq<u8>,
    subject: rcgen::CertificateParams,
    issuer: rcgen::CertificateParams,
) -> bool;

/// `p` are the `rcgen` parameters for `profile`: its subject, authority and
/// extensions, each usage and each alternative name converted in order.
pub open spec fn params_for_profile(p: rcgen::CertificateParams, profile: CertificateProfile) -> bool {
    exists|
        kus: Seq<rcgen::KeyUsagePurpose>,
        ekus: Seq<rcgen::ExtendedKeyUsagePurpose>,
        sans: Seq<rcgen::SanType>,
    |
        #![trigger params_are(p, profile.common_name@, profile.organization@, profile.authority, profile.authority_key_identifier, kus, ekus, sans)]
        converted(profile, kus, ekus, sans) && params_are(
            p,
            profile.common_name@,
            profile.organization@,
            profile.authority,
            profile.authority_key_identifier,
            kus,
            ekus,
            sans,
        )
}

/// `kus`, `ekus` and `sans` stand, element for element, for the usages,
/// extended usages and alternative names of `profile`.
pub open spec fn converted(
    profile: CertificateProfile,
    kus: Seq<rcgen::KeyUsagePurpose>,
    ekus: Seq<rcgen::ExtendedKeyUsagePurpose>,
    sans: Seq<rcgen::SanType>,
) -> bool {
    &&& kus.len() == profile.key_usages@.len()
    &&& forall|i: int| 0 <= i < kus.len() ==> #[trigger] key_usage_is(kus[i], profile.key_usages@[i])
    &&& ekus.len() == profile.extended_key_usages@.len()
    &&& forall|i: int|
        0 <= i < ekus.len() ==> #[trigger] extended_usage_is(ekus[i], profile.extended_key_usages@[i])
    &&& sans.len() == profile.subject_alt_names@.len()
    &&& forall|i: int|
        0 <= i < sans.len() ==> #[trigger] alt_name_is(sans[i], profile.subject_alt_names@[i])
}

/// The `rcgen` form of a key usage.
///
/// Trusted: converts to `rcgen::KeyUsagePurpose`, variant for variant.
#[verifier::external_body]
fn key_usage_purpose(u: KeyUsage) -> (k: rcgen::KeyUsagePurpose)
    ensures
        key_usage_is(k, u),
{
    match u {
        KeyUsage::DigitalSignature => rcgen::KeyUsagePurpose::DigitalSignature,
        KeyUsage::KeyEncipherment => rcgen::KeyUsagePurpose::KeyEncipherment,
        KeyUsage::KeyCertSign => rcgen::KeyUsagePurpose::KeyCertSign,
        KeyUsage::CrlSign => rcgen::KeyUsagePurpose::CrlSign,
    }
}

/// The `rcgen` form of an extended key usage.
///
/// Trusted: converts to `rcgen::ExtendedKeyUsagePurpose`, variant for
/// variant.
#[verifier::external_body]
fn extended_key_usage_purpose(u: ExtendedKeyUsage) -> (k: rcgen::ExtendedKeyUsagePurpose)
    ensures
        extended_usage_is(k, u),
{
    match u {
        ExtendedKeyUsage::ServerAuth => rcgen::ExtendedKeyUsagePurpose::ServerAuth,
        ExtendedKeyUsage::ClientAuth => rcgen::ExtendedKeyUsagePurpose::ClientAuth,
    }
}

/// The `rcgen` form of a subject alternative name.
///
/// Trusted: builds `SanType::IpAddress`, or `SanType::DnsName` through
/// `Ia5String::try_from`, which per its source refuses exactly the
/// non-ASCII strings.
#[verifier::external_body]
fn san_entry(name: &AltName) -> (r: Result<rcgen::SanType, rcgen::Error>)
    ensures
        name is Ip ==> r is Ok,
        name matches AltName::Dns(d) ==> (r is Ok <==> all_ascii(d@)),
        r matches Ok(s) ==> alt_name_is(s, *name),
{
    match name {
        AltName::Ip(IpAddress::V4(o)) => Ok(rcgen::SanType::IpAddress(core::net::IpAddr::from(*o))),
        AltName::Ip(IpAddress::V6(s)) => Ok(rcgen::SanType::IpAddress(core::net::IpAddr::from(*s))),
        AltName::Dns(d) => rcgen::string::Ia5String::try_from(d.clone()).map(rcgen::SanType::DnsName),
    }
}

/// Certificate parameters with this subject, authority and extensions,
/// and `rcgen`'s defaults otherwise.
///
/// Trusted: builds a `DistinguishedName` (`new`, then `push` of the common
/// name and the organization) and a `CertificateParams` over
/// `CertificateParams::default`, setting exactly these fields.
#[verifier::external_body]
fn certificate_params(
    common_name: &str,
    organization: &str,
    authority: Authority,
    authority_key_identifier: bool,
    key_usages: Vec<rcgen::KeyUsagePurpose>,
    extended_key_usages: Vec<rcgen::ExtendedKeyUsagePurpose>,
    subject_alt_names: Vec<rcgen::SanType>,
) -> (p: rcgen::CertificateParams)
    ensures
        params_are(
            p,
            common_name@,
            organization@,
            authority,
            authority_key_identifier,
            key_usages@,
            extended_key_usages@,
            subject_alt_names@,
        ),
{
    let mut params = rcgen::CertificateParams::default();
    params.distinguished_name = rcgen::DistinguishedName::new();
    params.distinguished_name.push(rcgen::DnType::CommonName, common_name);
    params.distinguished_name.push(rcgen::DnType::OrganizationName, organization);
    params.is_ca = match authority {
        Authority::Ca => rcgen::IsCa::Ca(rcgen::BasicConstraints::Unconstrained),
        Authority::Leaf => rcgen::IsCa::NoCa,
    };
    params.use_authority_key_identifier_extension = authority_key_identifier;
    params.key_usages = key_usages;
    params.extended_key_usages = extended_key_usages;
    params.subject_alt_names = subject_alt_names;
    params
}

/// A fresh key pair.
///
/// Trusted: calls `rcgen::KeyPair::generate`; the key is random, and
/// whether generation fails is left unsaid.
#[verifier::external_body]
pub(crate) fn generate_key_pair() -> Result<rcgen::KeyPair, rcgen::Error> {
    rcgen::KeyPair::generate()
}

/// `s` is one PEM block with label `label` and no headers, as the `pem`
/// crate writes it: `-----BEGIN <label>-----` and a newline first,
/// `-----END <label>-----` and a newline last.
pub open spec fn pem_armoured(label: Seq<char>, s: Seq<char>) -> bool {
    let begin = "-----BEGIN "@ + label + "-----\n"@;
    let end = "-----END "@ + label + "-----\n"@;
    &&& s.len() >= begin.len() + end.len()
    &&& s.subrange(0, begin.len() as int) == begin
    &&& s.subrange(s.len() - end.len(), s.len() as int) == end
}

/// The PEM serialisation of a private key.
///
/// Trusted: calls `rcgen::KeyPair::serialize_pem`, which per its source is
/// `pem::encode_config` of a `PRIVATE KEY` block with LF line endings; the
/// claim is that the text is one such block.
#[verifier::external_body]
pub(crate) fn key_pair_pem(key: &rcgen::KeyPair) -> (s: String)
    ensures
        pem_armoured("PRIVATE KEY"@, s@),
{
    key.serialize_pem()
}

/// What an issued certificate is: one `CERTIFICATE` PEM block whose first
/// certificate reads back as the DER bytes `der`.
pub open spec fn pem_holds_der(pem: Seq<char>, der: Seq<u8>) -> bool {
    &&& pem_armoured("CERTIFICATE"@, pem)
    &&& pem_certificate_der(encode_utf8(pem)) == Some(der)
}

/// A certificate for `params` signed with its own key, as PEM text and
/// DER bytes.
///
/// Trusted: calls `rcgen::CertificateParams::self_signed`, then
/// `Certificate::pem` and `Certificate::der`. Per rcgen's source the PEM is
/// `pem::encode_config` of a `CERTIFICATE` block holding exactly those DER
/// bytes (LF line endings, no headers), whose body per the `pem` source is
/// the standard padded base64 of the bytes; reading its first certificate
/// block therefore gives the DER back. The certificate's subject and issuer
/// both come from `params`.
#[verifier::external_body]
pub(crate) fn self_signed(params: &rcgen::CertificateParams, key: &rcgen::KeyPair) -> (r: Result<
    (String, Vec<u8>),
    rcgen::Error,
>)
    ensures
        r matches Ok((pem, der)) ==> pem_holds_der(pem@, der@) && issued_from(der@, *params, *params),
{
    let cert = params.self_signed(key)?;
    Ok((cert.pem(), cert.der().to_vec()))
}

/// A certificate for `params` and `key`, issued by the CA described by
/// `issuer_params` and `issuer_key`, as PEM text and DER bytes.
///
/// Trusted: calls `rcgen::Issuer::new`, `CertificateParams::signed_by`,
/// then `Certificate::pem` and `Certificate::der`; the PEM holds the DER as
/// for [`self_signed`]. The certificate's subject comes from `params`, its
/// issuer from `issuer_params`.
#[verifier::external_body]
pub(crate) fn signed_by(
    params: &rcgen::CertificateParams,
    key: &rcgen::KeyPair,
    issuer_params: rcgen::CertificateParams,
    issuer_key: rcgen::KeyPair,
) -> (r: Result<(String, Vec<u8>), rcgen::Error>)
    ensures
        r matches Ok((pem, der)) ==> pem_holds_der(pem@, der@) && issued_from(
            der@,
            *params,
            issuer_params,
        ),
{
    let issuer = rcgen::Issuer::new(issuer_params, issuer_key);
    let cert = params.signed_by(key, &issuer)?;
    Ok((cert.pem(), cert.der().to_vec()))
}

/// The `rcgen` parameters for a profile: its subject, authority and key
/// usages, and its alternative names converted one by one. They can be
/// built exactly when every DNS name is ASCII, as an IA5 string must be.
pub(crate) fn profile_params(profile: &CertificateProfile) -> (r: Result<rcgen::CertificateParams, rcgen::Error>)
    ensures
        r is Ok <==> names_encodable(profile.subject_alt_names@),
        r matches Ok(p) ==> params_for_profile(p, *profile),
{
    let mut key_usages: Vec<rcgen::KeyUsagePurpose> = Vec::new();
    let mut i: usize = 0;
    while i < profile.key_usages.len()
        invariant
            i <= profile.key_usages@.len(),
            key_usages@.len() == i,
            forall|q: int| 0 <= q < i ==> #[trigger] key_usage_is(key_usages@[q], profile.key_usages@[q]),
        decreases profile.key_usages@.len() - i,
    {
        key_usages.push(key_usage_purpose(profile.key_usages[i]));
        i = i + 1;
    }
    let mut extended: Vec<rcgen::ExtendedKeyUsagePurpose> = Vec::new();
    let mut j: usize = 0;
    while j < profile.extended_key_usages.len()
        invariant
            j <= profile.extended_key_usages@.len(),
            extended@.len() == j,
            forall|q: int|
                0 <= q < j ==> #[trigger] extended_usage_is(extended@[q], profile.extended_key_usages@[q]),
        decreases profile.extended_key_usages@.len() - j,
    {
        extended.push(extended_key_usage_purpose(profile.extended_key_usages[j]));
        j = j + 1;
    }
    let mut sans: Vec<rcgen::SanType> = Vec::new();
    let mut k: usize = 0;
    while k < profile.subject_alt_names.len()
        invariant
            k <= profile.subject_alt_names@.len(),
            sans@.len() == k,
            forall|q: int| 0 <= q < k ==> #[trigger] alt_name_is(sans@[q], profile.subject_alt_names@[q]),
            forall|q: int| 0 <= q < k ==> !(#[trigger] profile.subject_alt_names@[q] matches AltName::Dns(
                d,
            ) && !all_ascii(d@)),
        decreases profile.subject_alt_names@.len() - k,
    {
        match san_entry(&profile.subject_alt_names[k]) {
            Ok(s) => sans.push(s),
            Err(e) => {
                proof {
                    let n = profile.subject_alt_names@[k as int];
                    assert(n matches AltName::Dns(d) && !all_ascii(d@));
                    assert(!names_encodable(profile.subject_alt_names@));
                }
                return Err(e);
            },
        }
        k = k + 1;
    }
    assert(names_encodable(profile.subject_alt_names@));
    let ghost (kus, ekus, ss) = (key_usages@, extended@, sans@);
    let p = certificate_params(
        profile.common_name.as_str(),
        profile.organization.as_str(),
        profile.authority,
        profile.authority_key_identifier,
        key_usages,
        extended,
        sans,
    );
    assert(converted(*profile, kus, ekus, ss));
    assert(params_are(
        p,
        profile.common_name@,
        profile.organization@,
        profile.authority,
        profile.authority_key_identifier,
        kus,
        ekus,
        ss,
    ));
    Ok(p)
}

} // verus!
