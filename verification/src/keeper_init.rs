//! `dobby keeper init` — what it decides.
//!
//! Init lays out the Keeper state directory:
//!
//! ```text
//! <dir>/
//! ├── keeper.toml                       (0644)
//! ├── tls/
//! │   ├── ca.crt                        (0644)
//! │   ├── ca.key                        (0600)
//! │   ├── host.crt                      (0644)
//! │   └── host.key                      (0600)
//! └── secrets/
//!     └── bootstrap_token               (0600)
//! ```
//!
//! This module validates the request (address families, CIDR and range
//! syntax), decides what to do with the target directory, builds the
//! configuration and lists the files to write with their modes. Creating
//! directories, writing and syncing are done around this library.

use vstd::prelude::*;

use crate::bootstrap_token::{stored_hash_of, TokenError, TokenFormatError};
use crate::keeper_config::{KeeperConfig, Network};
use crate::path::{path_parent, path_parent_of, texts};
use crate::net::{ip_address_parse, ip_address_text, ip_to_string, parse_ip, IpAddress};
use crate::state::AtomicWriteError;
use crate::text::{
    chars_of, find_char, parse_unsigned, parse_unsigned_in, split_once, substring, trim,
    trimmed_range,
};
use crate::crypto::sha256_digest;
use crate::hex::hex_decode_lower;
use crate::tls::{
    fingerprint_hex, keeper_certificates, lemma_fingerprint_hex_round_trip, pem_certificate_der,
    TlsArtifacts, TlsError,
};
use crate::x509::pem_armoured;
use vstd::utf8::encode_utf8;

verus! {

/// Input to `dobby keeper init`.
#[derive(Debug, Clone)]
pub struct Request {
    /// Target directory for Keeper state (conventionally `/etc/dobby`).
    pub dir: String,
    /// Keeper LXC's own IP on `bridge`.
    pub keeper_ip: IpAddress,
    /// LAN gateway on `bridge`.
    pub gateway: IpAddress,
    /// Upstream DNS for non-`.dobby` forwarding.
    pub dns_upstream: IpAddress,
    /// LAN subnet in CIDR form (`10.0.0.0/24`).
    pub subnet: String,
    /// Allocation range for managed LXCs (`10.0.0.200-10.0.0.250`).
    pub static_range: String,
    /// Proxmox bridge name (`vmbr0`).
    pub bridge: String,
    /// Overwrite an existing non-empty target directory.
    pub force: bool,
}

/// Result of a successful init — what the CLI prints to the operator.
#[derive(Debug)]
pub struct InitOutcome {
    /// One-time token the operator passes to `dobby pair --token`.
    pub bootstrap_token: String,
    /// SHA-256 fingerprint (lowercase hex) of the Keeper TLS host cert.
    pub tls_fingerprint_sha256: String,
}

/// Errors from init.
#[derive(Debug)]
pub enum InitError {
    /// The target directory already contains state and `force` was not set.
    NotEmpty(String),
    /// `keeper_ip` is one address family and a network field another.
    FamilyMismatch {
        /// The offending field.
        field: &'static str,
        /// The offending address, as text.
        field_value: String,
        /// `IPv4` or `IPv6`.
        keeper_ip_family: &'static str,
        /// `IPv4` or `IPv6`.
        field_family: &'static str,
    },
    /// Malformed `subnet` or `static_range` string.
    MalformedNetworkField {
        /// The offending field.
        field: &'static str,
        /// The offending value.
        value: String,
        /// What was expected.
        expected: &'static str,
    },
    /// TLS material generation failed.
    Tls(TlsError),
    /// Bootstrap token generation failed.
    Token(TokenError),
    /// The bootstrap token could not be hashed for storage.
    TokenFormat(TokenFormatError),
    /// `keeper.toml` serialisation failed.
    Serialise {
        /// The serialiser's description of the failure.
        message: String,
    },
    /// Filesystem / atomic-write error.
    Write(AtomicWriteError),
    /// Ambient filesystem error (mkdir, readdir).
    Io {
        /// Filesystem operation that failed.
        op: &'static str,
        /// Path the failed operation targeted.
        path: String,
        /// The filesystem's description of the failure.
        message: String,
    },
}

// ── network validation ───────────────────────────────────────────────────

/// `IPv4` or `IPv6`.
pub open spec fn family_text(ip: IpAddress) -> Seq<char> {
    if ip is V4 {
        "IPv4"@
    } else {
        "IPv6"@
    }
}

/// Both addresses are of one family.
pub open spec fn same_family(a: IpAddress, b: IpAddress) -> bool {
    (a is V4) == (b is V4)
}

/// `subnet` split at its first `/`.
pub open spec fn subnet_parts(req: Request) -> Option<(Seq<char>, Seq<char>)> {
    split_once(req.subnet@, '/')
}

/// The address before the `/` of `subnet`.
pub open spec fn subnet_ip(req: Request) -> Option<IpAddress> {
    ip_address_parse(subnet_parts(req).unwrap().0)
}

/// The prefix length after the `/` of `subnet`, as `u8` parsing reads it.
pub open spec fn subnet_prefix(req: Request) -> Option<nat> {
    parse_unsigned(subnet_parts(req).unwrap().1, 255)
}

/// The largest prefix length of the family of `ip`.
pub open spec fn max_prefix(ip: IpAddress) -> nat {
    if ip is V4 {
        32
    } else {
        128
    }
}

/// `static_range` split at its first `-`.
pub open spec fn range_parts(req: Request) -> Option<(Seq<char>, Seq<char>)> {
    split_once(req.static_range@, '-')
}

/// The first address of the range, trimmed.
pub open spec fn range_first(req: Request) -> Option<IpAddress> {
    ip_address_parse(trim(range_parts(req).unwrap().0))
}

/// The last address of the range, trimmed.
pub open spec fn range_last(req: Request) -> Option<IpAddress> {
    ip_address_parse(trim(range_parts(req).unwrap().1))
}

/// Which check of the network fields fails first, in the order they are
/// made: 0 gateway family, 1 DNS family, 2 subnet without `/`, 3 subnet
/// address unparseable, 4 prefix not a `u8`, 5 prefix too long for the
/// family, 6 subnet family, 7 range without `-`, 8 first address
/// unparseable, 9 last address unparseable, 10 first family, 11 last
/// family; 12 when every check passes.
pub open spec fn failing_check(req: Request) -> nat {
    let k = req.keeper_ip;
    if !same_family(req.gateway, k) {
        0
    } else if !same_family(req.dns_upstream, k) {
        1
    } else if subnet_parts(req) is None {
        2
    } else if subnet_ip(req) is None {
        3
    } else if subnet_prefix(req) is None {
        4
    } else if subnet_prefix(req)->0 > max_prefix(subnet_ip(req)->0) {
        5
    } else if !same_family(subnet_ip(req)->0, k) {
        6
    } else if range_parts(req) is None {
        7
    } else if range_first(req) is None {
        8
    } else if range_last(req) is None {
        9
    } else if !same_family(range_first(req)->0, k) {
        10
    } else if !same_family(range_last(req)->0, k) {
        11
    } else {
        12
    }
}

/// The network fields of `req` describe one network of the family of the
/// Keeper address: the gateway and DNS upstream are of that family; the
/// subnet is `<ip>/<prefix>` with an address of that family and a prefix
/// that fits it; the static range is `<first>-<last>` with both ends
/// addresses of that family.
pub open spec fn single_family_network(req: Request) -> bool {
    let k = req.keeper_ip;
    &&& same_family(req.gateway, k)
    &&& same_family(req.dns_upstream, k)
    &&& subnet_parts(req) is Some
    &&& subnet_ip(req) matches Some(s) && same_family(s, k)
    &&& subnet_prefix(req) matches Some(n) && n <= max_prefix(k)
    &&& range_parts(req) is Some
    &&& range_first(req) matches Some(a) && same_family(a, k)
    &&& range_last(req) matches Some(b) && same_family(b, k)
}

/// Every check of the network fields passes exactly when they describe one
/// network of the Keeper's family; in particular both ends of the static
/// range must be of the Keeper address's family.
pub proof fn law_network_checks_mean_single_family(req: Request)
    ensures
        failing_check(req) == 12 <==> single_family_network(req),
        failing_check(req) == 12 ==> (range_first(req) matches Some(a) && same_family(
            a,
            req.keeper_ip,
        )),
        failing_check(req) == 12 ==> (range_last(req) matches Some(b) && same_family(
            b,
            req.keeper_ip,
        )),
{
}

/// `e` reports that `value` in `field` is not of the family of `keeper_ip`.
pub open spec fn is_family_mismatch(
    e: InitError,
    field: Seq<char>,
    value: IpAddress,
    keeper_ip: IpAddress,
) -> bool {
    e matches InitError::FamilyMismatch { field: f, field_value, keeper_ip_family, field_family }
        && f@ == field && field_value@ == ip_address_text(value) && keeper_ip_family@ == family_text(
        keeper_ip,
    ) && field_family@ == family_text(value)
}

/// `e` reports that `value` in `field` is malformed, with `expected`.
pub open spec fn is_malformed(e: InitError, field: Seq<char>, value: String, expected: Seq<
    char,
>) -> bool {
    e matches InitError::MalformedNetworkField { field: f, value: v, expected: x } && f@ == field
        && v == value && x@ == expected
}

/// Rejects `value` unless it is of the family of `keeper_ip`.
pub fn check_family(field: &'static str, value: &IpAddress, keeper_ip: &IpAddress) -> (r: Result<
    (),
    InitError,
>)
    ensures
        r is Ok <==> same_family(*value, *keeper_ip),
        r matches Err(e) ==> is_family_mismatch(e, field@, *value, *keeper_ip),
{
    if value.is_ipv4() != keeper_ip.is_ipv4() {
        return Err(
            InitError::FamilyMismatch {
                field,
                field_value: ip_to_string(value),
                keeper_ip_family: if keeper_ip.is_ipv4() {
                    "IPv4"
                } else {
                    "IPv6"
                },
                field_family: if value.is_ipv4() {
                    "IPv4"
                } else {
                    "IPv6"
                },
            },
        );
    }
    Ok(())
}

/// Rejects configs whose CIDR / range fields are malformed or belong to a
/// different address family than `keeper_ip`.
pub fn validate_network_families(req: &Request) -> (r: Result<(), InitError>)
    ensures
        r is Ok <==> failing_check(*req) == 12,
        r is Ok <==> single_family_network(*req),
        r is Ok ==> (range_first(*req) matches Some(a) && same_family(a, req.keeper_ip)),
        r is Ok ==> (range_last(*req) matches Some(b) && same_family(b, req.keeper_ip)),
        failing_check(*req) == 0 ==> is_family_mismatch(
            r->Err_0,
            "gateway"@,
            req.gateway,
            req.keeper_ip,
        ),
        failing_check(*req) == 1 ==> is_family_mismatch(
            r->Err_0,
            "dns_upstream"@,
            req.dns_upstream,
            req.keeper_ip,
        ),
        failing_check(*req) == 2 ==> is_malformed(
            r->Err_0,
            "subnet"@,
            req.subnet,
            "CIDR (\"<ip>/<prefix>\")"@,
        ),
        failing_check(*req) == 3 ==> is_malformed(
            r->Err_0,
            "subnet"@,
            req.subnet,
            "CIDR with parseable IP"@,
        ),
        failing_check(*req) == 4 ==> is_malformed(
            r->Err_0,
            "subnet"@,
            req.subnet,
            "CIDR with numeric prefix (0-32 for v4, 0-128 for v6)"@,
        ),
        failing_check(*req) == 5 ==> is_malformed(
            r->Err_0,
            "subnet"@,
            req.subnet,
            if subnet_ip(*req)->0 is V4 {
                "CIDR with v4 prefix in 0-32"@
            } else {
                "CIDR with v6 prefix in 0-128"@
            },
        ),
        failing_check(*req) == 6 ==> is_family_mismatch(
            r->Err_0,
            "subnet"@,
            subnet_ip(*req)->0,
            req.keeper_ip,
        ),
        failing_check(*req) == 7 ==> is_malformed(
            r->Err_0,
            "static_range"@,
            req.static_range,
            "range (\"<first-ip>-<last-ip>\")"@,
        ),
        failing_check(*req) == 8 || failing_check(*req) == 9 ==> is_malformed(
            r->Err_0,
            "static_range"@,
            req.static_range,
            "range with parseable IPs"@,
        ),
        failing_check(*req) == 10 ==> is_family_mismatch(
            r->Err_0,
            "static_range"@,
            range_first(*req)->0,
            req.keeper_ip,
        ),
        failing_check(*req) == 11 ==> is_family_mismatch(
            r->Err_0,
            "static_range"@,
            range_last(*req)->0,
            req.keeper_ip,
        ),
{
    let kip = &req.keeper_ip;
    check_family("gateway", &req.gateway, kip)?;
    check_family("dns_upstream", &req.dns_upstream, kip)?;

    // subnet is "<ip>/<prefix>" — both halves are checked.
    let subnet = chars_of(req.subnet.as_str());
    let slash = match find_char(subnet.as_slice(), '/') {
        Some(i) => i,
        None => {
            return Err(
                InitError::MalformedNetworkField {
                    field: "subnet",
                    value: req.subnet.clone(),
                    expected: "CIDR (\"<ip>/<prefix>\")",
                },
            );
        },
    };
    assert(slash < subnet@.len());
    let subnet_ip_text = substring(req.subnet.as_str(), 0, slash);
    let subnet_ip = match parse_ip(subnet_ip_text.as_str()) {
        Some(ip) => ip,
        None => {
            return Err(
                InitError::MalformedNetworkField {
                    field: "subnet",
                    value: req.subnet.clone(),
                    expected: "CIDR with parseable IP",
                },
            );
        },
    };
    let prefix = match parse_unsigned_in(subnet.as_slice(), slash + 1, subnet.len(), 255) {
        Some(p) => p,
        None => {
            return Err(
                InitError::MalformedNetworkField {
                    field: "subnet",
                    value: req.subnet.clone(),
                    expected: "CIDR with numeric prefix (0-32 for v4, 0-128 for v6)",
                },
            );
        },
    };
    let max_prefix: u32 = if subnet_ip.is_ipv4() {
        32
    } else {
        128
    };
    if prefix > max_prefix {
        return Err(
            InitError::MalformedNetworkField {
                field: "subnet",
                value: req.subnet.clone(),
                expected: if subnet_ip.is_ipv4() {
                    "CIDR with v4 prefix in 0-32"
                } else {
                    "CIDR with v6 prefix in 0-128"
                },
            },
        );
    }
    check_family("subnet", &subnet_ip, kip)?;

    // static_range is "<first>-<last>"; both ends must match the family.
    let range = chars_of(req.static_range.as_str());
    let dash = match find_char(range.as_slice(), '-') {
        Some(i) => i,
        None => {
            return Err(
                InitError::MalformedNetworkField {
                    field: "static_range",
                    value: req.static_range.clone(),
                    expected: "range (\"<first-ip>-<last-ip>\")",
                },
            );
        },
    };
    let range_len = range.len();
    let first_text = substring(req.static_range.as_str(), 0, dash);
    let last_text = substring(req.static_range.as_str(), dash + 1, range_len);
    let first = match parse_trimmed_ip(&first_text) {
        Some(ip) => ip,
        None => {
            return Err(
                InitError::MalformedNetworkField {
                    field: "static_range",
                    value: req.static_range.clone(),
                    expected: "range with parseable IPs",
                },
            );
        },
    };
    let last = match parse_trimmed_ip(&last_text) {
        Some(ip) => ip,
        None => {
            return Err(
                InitError::MalformedNetworkField {
                    field: "static_range",
                    value: req.static_range.clone(),
                    expected: "range with parseable IPs",
                },
            );
        },
    };
    check_family("static_range", &first, kip)?;
    check_family("static_range", &last, kip)?;
    Ok(())
}

/// Parses `text` as an address after trimming surrounding whitespace.
fn parse_trimmed_ip(text: &String) -> (r: Option<IpAddress>)
    ensures
        r == ip_address_parse(trim(text@)),
{
    let chars = chars_of(text.as_str());
    let (a, b) = trimmed_range(chars.as_slice());
    let trimmed = substring(text.as_str(), a, b);
    parse_ip(trimmed.as_str())
}

/// The `keeper.toml` that init writes for `req`.
pub fn build_config(req: &Request) -> (c: KeeperConfig)
    ensures
        c.network.bridge == req.bridge,
        c.network.subnet == req.subnet,
        c.network.static_range == req.static_range,
        c.network.keeper_ip == req.keeper_ip,
        c.network.gateway == req.gateway,
        c.network.dns_upstream == req.dns_upstream,
{
    KeeperConfig {
        network: Network {
            bridge: req.bridge.clone(),
            subnet: req.subnet.clone(),
            static_range: req.static_range.clone(),
            keeper_ip: req.keeper_ip,
            gateway: req.gateway,
            dns_upstream: req.dns_upstream,
        },
    }
}

// ── target directory ─────────────────────────────────────────────────────

/// What a look at the target directory found.
#[derive(Debug, Clone, Copy, PartialEq, Eq, Structural)]
pub enum TargetDirState {
    /// The directory exists; `has_entry` tells whether it holds anything.
    Exists {
        /// Whether the directory holds at least one entry.
        has_entry: bool,
    },
    /// The directory does not exist.
    Missing,
}

/// What to do with the target directory.
#[derive(Debug, Clone, Copy, PartialEq, Eq, Structural)]
pub enum TargetDirAction {
    /// Use the existing directory as it is.
    UseExisting,
    /// Create the directory (and its missing ancestors); the directory
    /// itself is then set to [`PUBLIC_DIR_MODE`].
    Create,
}

/// Decides what to do with the target directory: never touch a non-empty
/// one unless `force` is set.
pub fn target_dir_action(dir: &String, state: TargetDirState, force: bool) -> (r: Result<
    TargetDirAction,
    InitError,
>)
    ensures
        state == TargetDirState::Missing ==> r == Ok::<TargetDirAction, InitError>(
            TargetDirAction::Create,
        ),
        state == (TargetDirState::Exists { has_entry: true }) && !force ==> (r matches Err(
            InitError::NotEmpty(d)) && d == *dir),
        state == (TargetDirState::Exists { has_entry: true }) && force ==> r == Ok::<
            TargetDirAction,
            InitError,
        >(TargetDirAction::UseExisting),
        state == (TargetDirState::Exists { has_entry: false }) ==> r == Ok::<
            TargetDirAction,
            InitError,
        >(TargetDirAction::UseExisting),
{
    match state {
        TargetDirState::Exists { has_entry } => {
            if has_entry && !force {
                Err(InitError::NotEmpty(dir.clone()))
            } else {
                Ok(TargetDirAction::UseExisting)
            }
        },
        TargetDirState::Missing => Ok(TargetDirAction::Create),
    }
}

/// The index of the first ancestor found to exist, or the chain's length.
pub open spec fn first_existing(exists: Seq<bool>) -> nat
    decreases exists.len(),
{
    if exists.len() == 0 {
        0
    } else if exists[0] {
        0
    } else {
        1 + first_existing(exists.drop_first())
    }
}

/// Of the ancestor chain of the target directory (deepest first, as
/// [`ancestors`](crate::path::ancestors) gives it), those that init will
/// create: the ones before the first that exists. Taken before creating
/// anything, since afterwards all of them exist.
pub fn missing_ancestors(chain: &Vec<String>, exists: &Vec<bool>) -> (r: Vec<String>)
    requires
        chain@.len() == exists@.len(),
    ensures
        texts(r@) == texts(chain@).take(first_existing(exists@) as int),
        first_existing(exists@) <= exists@.len(),
{
    let mut out: Vec<String> = Vec::new();
    let mut i: usize = 0;
    proof {
        assert(exists@.skip(0) =~= exists@);
        assert(texts(out@) =~= texts(chain@).take(0));
    }
    while i < chain.len() && !exists[i]
        invariant
            chain@.len() == exists@.len(),
            i <= chain@.len(),
            texts(out@) == texts(chain@).take(i as int),
            first_existing(exists@) == i + first_existing(exists@.skip(i as int)),
        decreases chain@.len() - i,
    {
        proof {
            assert(exists@.skip(i as int).drop_first() =~= exists@.skip(i + 1));
            assert(texts(out@.push(chain@[i as int])) =~= texts(out@).push(chain@[i as int]@));
            assert(texts(chain@).take(i + 1) =~= texts(chain@).take(i as int).push(
                chain@[i as int]@,
            ));
        }
        out.push(chain[i].clone());
        i = i + 1;
    }
    proof {
        if i < chain@.len() {
            assert(exists@.skip(i as int)[0] == exists@[i as int]);
        } else {
            assert(exists@.skip(i as int).len() == 0);
        }
        lemma_first_existing_bound(exists@);
    }
    out
}

proof fn lemma_first_existing_bound(exists: Seq<bool>)
    ensures
        first_existing(exists) <= exists.len(),
    decreases exists.len(),
{
    if exists.len() > 0 && !exists[0] {
        lemma_first_existing_bound(exists.drop_first());
    }
}

/// The non-empty parent of `created`, as a list of at most one path.
pub open spec fn parent_entry(created: Seq<char>) -> Seq<Seq<char>> {
    match path_parent_of(created) {
        Some(q) => if q.len() > 0 {
            seq![q]
        } else {
            Seq::empty()
        },
        None => Seq::empty(),
    }
}

/// The directories whose entries must be synced after creating `missing`
/// (deepest first): the parent of each created directory, shallowest
/// first, skipping empty parents.
pub open spec fn dirs_to_sync(missing: Seq<Seq<char>>) -> Seq<Seq<char>>
    decreases missing.len(),
{
    if missing.len() == 0 {
        Seq::empty()
    } else {
        parent_entry(missing.last()) + dirs_to_sync(missing.drop_last())
    }
}

/// The directories to `fsync` so that every newly created directory's
/// entry is durable.
pub fn parents_to_sync(missing: &Vec<String>) -> (r: Vec<String>)
    ensures
        texts(r@) == dirs_to_sync(texts(missing@)),
{
    let mut out: Vec<String> = Vec::new();
    let mut i: usize = missing.len();
    proof {
        assert(texts(missing@).take(i as int) =~= texts(missing@));
        assert(texts(out@) + texts(missing@) =~= texts(missing@));
    }
    while i > 0
        invariant
            i <= missing@.len(),
            texts(out@) + dirs_to_sync(texts(missing@).take(i as int)) == dirs_to_sync(
                texts(missing@),
            ),
        decreases i,
    {
        let ghost pre = texts(missing@).take(i as int);
        proof {
            assert(texts(missing@).take(i as int) =~= texts(missing@.take(i as int)));
            assert(pre.last() == missing@[i - 1]@);
            assert(pre.drop_last() =~= texts(missing@).take(i - 1));
        }
        let p = path_parent(missing[i - 1].as_str());
        match p {
            Some(q) => {
                if q.as_str().unicode_len() > 0 {
                    proof {
                        assert(parent_entry(pre.last()) == seq![q@]);
                        assert(texts(out@.push(q)) =~= texts(out@).push(q@));
                        assert(texts(out@).push(q@) + dirs_to_sync(pre.drop_last()) =~= texts(out@)
                            + (seq![q@] + dirs_to_sync(pre.drop_last())));
                    }
                    out.push(q);
                } else {
                    proof {
                        assert(parent_entry(pre.last()) =~= Seq::<Seq<char>>::empty());
                        assert(Seq::<Seq<char>>::empty() + dirs_to_sync(pre.drop_last()) =~= dirs_to_sync(pre.drop_last()));
                    }
                }
            },
            None => {
                proof {
                    assert(parent_entry(pre.last()) =~= Seq::<Seq<char>>::empty());
                    assert(Seq::<Seq<char>>::empty() + dirs_to_sync(pre.drop_last()) =~= dirs_to_sync(pre.drop_last()));
                }
            },
        }
        i = i - 1;
    }
    proof {
        assert(texts(missing@).take(0) =~= Seq::<Seq<char>>::empty());
        assert(texts(out@) + Seq::<Seq<char>>::empty() =~= texts(out@));
    }
    out
}

// ── the files ────────────────────────────────────────────────────────────

/// One file init writes, relative to the state directory.
#[derive(Debug)]
pub struct FileWrite {
    /// Path relative to the state directory.
    pub relative_path: &'static str,
    /// File contents.
    pub contents: String,
    /// Permission bits.
    pub mode: u32,
}

/// Permission bits of the state directory when init creates it, and of
/// its `tls/` subdirectory.
pub const PUBLIC_DIR_MODE: u32 = 0o755;

/// Permission bits of the `secrets/` subdirectory.
pub const SECRET_DIR_MODE: u32 = 0o700;

/// A subdirectory init creates under the state directory, with the mode it
/// is set to.
#[derive(Debug, Clone, Copy)]
pub struct DirSetup {
    /// Path relative to the state directory.
    pub relative_path: &'static str,
    /// Permission bits, set explicitly so that the umask does not narrow
    /// them.
    pub mode: u32,
}

/// The subdirectories init creates: `tls/` readable by all (it holds the
/// public certificates next to the keys), `secrets/` owner-only.
pub fn init_directories() -> (dirs: Vec<DirSetup>)
    ensures
        dirs@.len() == 2,
        dirs@[0].relative_path@ == "tls"@ && dirs@[0].mode == PUBLIC_DIR_MODE,
        dirs@[1].relative_path@ == "secrets"@ && dirs@[1].mode == SECRET_DIR_MODE,
{
    let mut dirs: Vec<DirSetup> = Vec::new();
    dirs.push(DirSetup { relative_path: "tls", mode: PUBLIC_DIR_MODE });
    dirs.push(DirSetup { relative_path: "secrets", mode: SECRET_DIR_MODE });
    dirs
}

/// Permission bits of public artefacts.
pub const PUBLIC_MODE: u32 = 0o644;

/// Permission bits of secret artefacts.
pub const SECRET_MODE: u32 = 0o600;

/// The files init writes: `keeper.toml`, the TLS material, and the stored
/// hash of the bootstrap token (never the token itself). Public artefacts
/// are 0644, keys and the token hash 0600.
pub fn init_files(config_toml: String, tls: TlsArtifacts, bootstrap_token: &str) -> (r: Result<
    Vec<FileWrite>,
    InitError,
>)
    ensures
        crate::bootstrap_token::is_valid_token(bootstrap_token@) <==> r is Ok,
        r matches Ok(files) ==> {
            &&& files@.len() == 6
            &&& files@[0].relative_path@ == "keeper.toml"@ && files@[0].contents == config_toml
                && files@[0].mode == PUBLIC_MODE
            &&& files@[1].relative_path@ == "tls/ca.crt"@ && files@[1].contents == tls.ca_cert_pem
                && files@[1].mode == PUBLIC_MODE
            &&& files@[2].relative_path@ == "tls/host.crt"@ && files@[2].contents
                == tls.host_cert_pem && files@[2].mode == PUBLIC_MODE
            &&& files@[3].relative_path@ == "tls/ca.key"@ && files@[3].contents == tls.ca_key_pem
                && files@[3].mode == SECRET_MODE
            &&& files@[4].relative_path@ == "tls/host.key"@ && files@[4].contents
                == tls.host_key_pem && files@[4].mode == SECRET_MODE
            &&& files@[5].relative_path@ == "secrets/bootstrap_token"@ && files@[5].contents@
                == stored_hash_of(bootstrap_token@) && files@[5].mode == SECRET_MODE
        },
{
    let token_hash = match crate::bootstrap_token::hash_for_storage(bootstrap_token) {
        Ok(h) => h,
        Err(e) => return Err(InitError::TokenFormat(e)),
    };
    let mut files: Vec<FileWrite> = Vec::new();
    files.push(FileWrite { relative_path: "keeper.toml", contents: config_toml, mode: PUBLIC_MODE });
    files.push(
        FileWrite { relative_path: "tls/ca.crt", contents: tls.ca_cert_pem, mode: PUBLIC_MODE },
    );
    files.push(
        FileWrite { relative_path: "tls/host.crt", contents: tls.host_cert_pem, mode: PUBLIC_MODE },
    );
    files.push(
        FileWrite { relative_path: "tls/ca.key", contents: tls.ca_key_pem, mode: SECRET_MODE },
    );
    files.push(
        FileWrite { relative_path: "tls/host.key", contents: tls.host_key_pem, mode: SECRET_MODE },
    );
    files.push(
        FileWrite {
            relative_path: "secrets/bootstrap_token",
            contents: token_hash,
            mode: SECRET_MODE,
        },
    );
    Ok(files)
}

/// Generates what init writes, once the target directory is ready: the
/// TLS material, a fresh bootstrap token, and the files (with `config_toml`
/// as `keeper.toml`). The outcome reports the plaintext token, which only
/// the operator sees, and the host certificate fingerprint; the files hold
/// only the token's hash.
pub fn init_contents(req: &Request, config_toml: String) -> (r: Result<
    (Vec<FileWrite>, InitOutcome),
    InitError,
>)
    ensures
        r matches Ok((files, outcome)) ==> {
            &&& crate::bootstrap_token::is_valid_token(outcome.bootstrap_token@)
            &&& outcome.tls_fingerprint_sha256@.len() == 64
            &&& crate::hex::all_lower_hex(outcome.tls_fingerprint_sha256@)
            &&& files@.len() == 6
            &&& files@[0].relative_path@ == "keeper.toml"@ && files@[0].contents == config_toml
            &&& files@[1].relative_path@ == "tls/ca.crt"@
            &&& files@[2].relative_path@ == "tls/host.crt"@
            &&& files@[3].relative_path@ == "tls/ca.key"@
            &&& files@[4].relative_path@ == "tls/host.key"@
            &&& files@[5].relative_path@ == "secrets/bootstrap_token"@ && files@[5].contents@
                == stored_hash_of(outcome.bootstrap_token@)
            &&& pem_armoured("CERTIFICATE"@, files@[1].contents@)
            &&& pem_armoured("CERTIFICATE"@, files@[2].contents@)
            &&& pem_armoured("PRIVATE KEY"@, files@[3].contents@)
            &&& pem_armoured("PRIVATE KEY"@, files@[4].contents@)
            &&& pem_certificate_der(encode_utf8(files@[1].contents@)) is Some
            // the CA and the host certificate, issued for the Keeper's address
            &&& keeper_certificates(files@[1].contents@, files@[2].contents@, req.keeper_ip)
            // the fingerprint printed is that of the certificate in `tls/host.crt`
            &&& pem_certificate_der(encode_utf8(files@[2].contents@)) matches Some(d)
                && outcome.tls_fingerprint_sha256@ == fingerprint_hex(d) && hex_decode_lower(
                outcome.tls_fingerprint_sha256@,
            ) == sha256_digest(d)@
            &&& forall|i: int| 0 <= i < 3 ==> #[trigger] files@[i].mode == PUBLIC_MODE
            &&& forall|i: int| 3 <= i < 6 ==> #[trigger] files@[i].mode == SECRET_MODE
        },
        r matches Err(e) ==> (e matches InitError::Tls(TlsError::Rcgen(_))) || (e matches InitError::Token(
            TokenError::Rng(_),
        )),
{
    let tls = match crate::tls::generate(req.keeper_ip) {
        Ok(t) => t,
        Err(e) => return Err(InitError::Tls(e)),
    };
    let token = match crate::bootstrap_token::generate() {
        Ok(t) => t,
        Err(e) => return Err(InitError::Token(e)),
    };
    let fingerprint = tls.host_fingerprint_sha256.clone();
    proof {
        let d = pem_certificate_der(encode_utf8(tls.host_cert_pem@))->0;
        lemma_fingerprint_hex_round_trip(d);
    }
    let files = match init_files(config_toml, tls, token.as_str()) {
        Ok(f) => f,
        Err(e) => return Err(e),
    };
    Ok((files, InitOutcome { bootstrap_token: token, tls_fingerprint_sha256: fingerprint }))
}

} // verus!
