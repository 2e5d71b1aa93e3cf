//! `dobby keeper ...` — Keeper daemon lifecycle, bootstrap, backup,
//! restore, fingerprint display, key rotation.
//!
//! This module decides what a `keeper` subcommand does: which init
//! request it builds, which directory the daemon starts from or whose
//! host certificate fingerprint is shown, which subcommands have not
//! landed yet, and the `dobby pair` line shown to
//! the operator after init. Writing files and running the daemon happen
//! around it.

use vstd::prelude::*;

use super::{not_yet, not_yet_text};
use crate::keeper_init::Request;
use crate::net::{ip_address_text, ip_to_string, IpAddress};

verus! {

/// Port the Keeper's gRPC server binds to.
pub const KEEPER_GRPC_PORT: u16 = 8443;

/// `host:port` text of the Keeper endpoint at `ip`: IPv6 addresses are
/// wrapped in brackets so that the port's colon stays apart from the
/// address's own colons.
pub open spec fn endpoint_text(ip: IpAddress) -> Seq<char> {
    match ip {
        IpAddress::V4(_) => ip_address_text(ip) + ":8443"@,
        IpAddress::V6(_) => "["@ + ip_address_text(ip) + "]:8443"@,
    }
}

/// The Keeper endpoint for `ip` on the fixed gRPC port, as text.
pub fn keeper_endpoint(ip: IpAddress) -> (s: String)
    ensures
        s@ == endpoint_text(ip),
{
    let ip_text = ip_to_string(&ip);
    match ip {
        IpAddress::V4(_) => {
            let mut s = ip_text;
            s.append(":8443");
            s
        },
        IpAddress::V6(_) => {
            let mut s = String::from_str("[");
            s.append(ip_text.as_str());
            s.append("]:8443");
            s
        },
    }
}

/// Cloudflare's public resolver in the address family of `keeper_ip`:
/// `1.1.1.1`, or `2606:4700:4700::1111`.
pub open spec fn default_dns_for(keeper_ip: IpAddress) -> IpAddress {
    match keeper_ip {
        IpAddress::V4(_) => IpAddress::V4([1, 1, 1, 1]),
        IpAddress::V6(_) => IpAddress::V6([0x2606, 0x4700, 0x4700, 0, 0, 0, 0, 0x1111]),
    }
}

/// The DNS upstream used when `--dns-upstream` is omitted; it is in the
/// family of `keeper_ip`, so the family check of init accepts it.
pub fn default_dns_upstream_for(keeper_ip: IpAddress) -> (ip: IpAddress)
    ensures
        ip == default_dns_for(keeper_ip),
        (ip is V4) == (keeper_ip is V4),
{
    if keeper_ip.is_ipv4() {
        IpAddress::V4([1, 1, 1, 1])
    } else {
        IpAddress::V6([0x2606, 0x4700, 0x4700, 0, 0, 0, 0, 0x1111])
    }
}

/// `dobby keeper <sub>` subcommands.
#[derive(Debug, Clone)]
pub enum KeeperCommand {
    /// Generate TLS CA + host cert + bootstrap token; write `keeper.toml`.
    Init(InitArgs),
    /// Start the Keeper daemon.
    Start(StartArgs),
    /// Print the Keeper's TLS cert SHA-256 fingerprint, for pairing over an
    /// already-authenticated channel.
    ShowFingerprint(ShowFingerprintArgs),
    /// Rotate the stored Proxmox API token.
    SetProxmoxToken,
    /// Authenticate with an identity provider.
    Auth(AuthProvider),
    /// Create a passphrase-encrypted archive of the state directory.
    Backup(BackupArgs),
    /// Restore from a passphrase-encrypted archive.
    Restore(RestoreArgs),
    /// Re-push the binary and re-issue the mTLS cert to an existing LXC.
    Rebootstrap(RebootstrapArgs),
    /// Rotate the age master key.
    RotateSecretsKey,
}

/// Arguments of `dobby keeper init`.
#[derive(Debug, Clone)]
pub struct InitArgs {
    /// Target directory for Keeper state (default `/etc/dobby`).
    pub dir: String,
    /// Keeper LXC's own IP on `bridge`.
    pub keeper_ip: IpAddress,
    /// LAN gateway.
    pub gateway: IpAddress,
    /// LAN subnet in CIDR form (default `10.0.0.0/24`).
    pub subnet: String,
    /// Range of IPs allocated to managed LXCs (default
    /// `10.0.0.200-10.0.0.250`).
    pub static_range: String,
    /// Proxmox bridge name (default `vmbr0`).
    pub bridge: String,
    /// Upstream DNS for non-`.dobby` queries; when omitted, a resolver
    /// in the family of `keeper_ip`.
    pub dns_upstream: Option<IpAddress>,
    /// Overwrite an existing non-empty `dir`.
    pub force: bool,
}

/// Arguments of `dobby keeper start`.
#[derive(Debug, Clone)]
pub struct StartArgs {
    /// State directory written by `dobby keeper init`.
    pub dir: String,
}

/// Arguments of `dobby keeper show-fingerprint`.
#[derive(Debug, Clone)]
pub struct ShowFingerprintArgs {
    /// State directory written by `dobby keeper init`.
    pub dir: String,
}

/// Identity providers of `dobby keeper auth`.
#[derive(Debug, Clone, Copy)]
pub enum AuthProvider {
    /// GitHub OAuth Device Flow.
    Github,
}

/// Arguments of `dobby keeper backup`: where the passphrase comes from.
#[derive(Debug, Clone)]
pub struct BackupArgs {
    /// Read the passphrase from this environment variable.
    pub passphrase_env: Option<String>,
    /// Read the plaintext passphrase from this file.
    pub passphrase_file: Option<String>,
    /// Read the passphrase from stdin.
    pub passphrase_stdin: bool,
    /// Read an age-ciphertext passphrase from a systemd credentials file.
    pub passphrase_credentials_file: Option<String>,
    /// Raw passphrase.
    pub passphrase: Option<String>,
}

/// Arguments of `dobby keeper restore`.
#[derive(Debug, Clone)]
pub struct RestoreArgs {
    /// Path to the encrypted archive.
    pub archive: String,
    /// Overwrite an existing non-empty state tree.
    pub force: bool,
}

/// Arguments of `dobby keeper rebootstrap`.
#[derive(Debug, Clone)]
pub struct RebootstrapArgs {
    /// App name of the managed LXC.
    pub app: String,
}

/// The init request that `dobby keeper init` runs for `args`.
pub open spec fn init_request_of(args: InitArgs) -> Request {
    Request {
        dir: args.dir,
        keeper_ip: args.keeper_ip,
        gateway: args.gateway,
        dns_upstream: match args.dns_upstream {
            Some(d) => d,
            None => default_dns_for(args.keeper_ip),
        },
        subnet: args.subnet,
        static_range: args.static_range,
        bridge: args.bridge,
        force: args.force,
    }
}

/// Builds the init request from the command line: every field is carried
/// over, and a missing DNS upstream takes the family-aware default.
pub fn init_request(args: InitArgs) -> (req: Request)
    ensures
        req == init_request_of(args),
        req.dir == args.dir,
        req.keeper_ip == args.keeper_ip,
        req.gateway == args.gateway,
        req.subnet == args.subnet,
        req.static_range == args.static_range,
        req.bridge == args.bridge,
        req.force == args.force,
        args.dns_upstream matches Some(d) ==> req.dns_upstream == d,
        args.dns_upstream is None ==> (req.dns_upstream is V4) == (args.keeper_ip is V4),
{
    let dns_upstream = match args.dns_upstream {
        Some(d) => d,
        None => default_dns_upstream_for(args.keeper_ip),
    };
    Request {
        dir: args.dir,
        keeper_ip: args.keeper_ip,
        gateway: args.gateway,
        dns_upstream,
        subnet: args.subnet,
        static_range: args.static_range,
        bridge: args.bridge,
        force: args.force,
    }
}

/// What a `keeper` subcommand comes to.
#[derive(Debug, Clone)]
pub enum KeeperPlan {
    /// Run init with this request.
    Init(Request),
    /// Run the daemon from this state directory.
    Start(String),
    /// Print the fingerprint of the host certificate in this state
    /// directory (`tls/host.crt`).
    ShowFingerprint(String),
    /// Fail with this message: the subcommand has not landed.
    Unimplemented(String),
}

/// The init request carries the command line over unchanged: the target
/// directory, every address, the subnet, range and bridge, and whether to
/// overwrite an existing directory are those given; a DNS upstream given
/// is used as is, and an omitted one is of the Keeper address's family.
pub proof fn law_init_request_carries_args(args: InitArgs)
    ensures
        init_request_of(args).dir == args.dir,
        init_request_of(args).keeper_ip == args.keeper_ip,
        init_request_of(args).gateway == args.gateway,
        init_request_of(args).subnet == args.subnet,
        init_request_of(args).static_range == args.static_range,
        init_request_of(args).bridge == args.bridge,
        init_request_of(args).force == args.force,
        args.dns_upstream matches Some(d) ==> init_request_of(args).dns_upstream == d,
        args.dns_upstream is None ==> (init_request_of(args).dns_upstream is V4) == (
        args.keeper_ip is V4),
        args.dns_upstream is None && args.keeper_ip is V4 ==> init_request_of(args).dns_upstream
            == IpAddress::V4([1, 1, 1, 1]),
        args.dns_upstream is None && args.keeper_ip is V6 ==> init_request_of(args).dns_upstream
            == IpAddress::V6([0x2606, 0x4700, 0x4700, 0, 0, 0, 0, 0x1111]),
{
}

/// Two command lines that differ only in `--force` give init requests that
/// differ only in whether an existing directory is overwritten.
pub proof fn law_init_request_force_only(a: InitArgs, b: InitArgs)
    requires
        a == (InitArgs { force: a.force, ..b }),
    ensures
        init_request_of(a).force == a.force,
        init_request_of(b).force == b.force,
        init_request_of(a) == (Request { force: a.force, ..init_request_of(b) }),
{
}

/// The phase and command name of each subcommand that has not landed.
pub open spec fn pending(cmd: KeeperCommand) -> Option<(Seq<char>, Seq<char>)> {
    match cmd {
        KeeperCommand::Init(_) => None,
        KeeperCommand::Start(_) => None,
        KeeperCommand::ShowFingerprint(_) => None,
        KeeperCommand::SetProxmoxToken => Some(("Phase 1"@, "dobby keeper set-proxmox-token"@)),
        KeeperCommand::Auth(_) => Some(("Phase 1"@, "dobby keeper auth github"@)),
        KeeperCommand::Backup(_) => Some(("Phase 2"@, "dobby keeper backup"@)),
        KeeperCommand::Restore(_) => Some(("Phase 2"@, "dobby keeper restore"@)),
        KeeperCommand::Rebootstrap(_) => Some(("Phase 2"@, "dobby keeper rebootstrap"@)),
        KeeperCommand::RotateSecretsKey => Some(("Phase 4"@, "dobby keeper rotate-secrets-key"@)),
    }
}

/// Decides what `dobby keeper <sub>` does.
pub fn plan(cmd: KeeperCommand) -> (p: KeeperPlan)
    ensures
        cmd matches KeeperCommand::Init(args) ==> p == KeeperPlan::Init(init_request_of(args)),
        cmd matches KeeperCommand::Start(args) ==> p == KeeperPlan::Start(args.dir),
        cmd matches KeeperCommand::ShowFingerprint(args) ==> p == KeeperPlan::ShowFingerprint(
            args.dir,
        ),
        pending(cmd) matches Some((phase, what)) ==> (p matches KeeperPlan::Unimplemented(m)
            && m@ == not_yet_text(phase, what)),
{
    match cmd {
        KeeperCommand::Init(args) => KeeperPlan::Init(init_request(args)),
        KeeperCommand::Start(args) => KeeperPlan::Start(args.dir),
        KeeperCommand::ShowFingerprint(args) => KeeperPlan::ShowFingerprint(args.dir),
        KeeperCommand::SetProxmoxToken => KeeperPlan::Unimplemented(
            not_yet("Phase 1", "dobby keeper set-proxmox-token"),
        ),
        KeeperCommand::Auth(AuthProvider::Github) => KeeperPlan::Unimplemented(
            not_yet("Phase 1", "dobby keeper auth github"),
        ),
        KeeperCommand::Backup(_) => KeeperPlan::Unimplemented(
            not_yet("Phase 2", "dobby keeper backup"),
        ),
        KeeperCommand::Restore(_) => KeeperPlan::Unimplemented(
            not_yet("Phase 2", "dobby keeper restore"),
        ),
        KeeperCommand::Rebootstrap(_) => KeeperPlan::Unimplemented(
            not_yet("Phase 2", "dobby keeper rebootstrap"),
        ),
        KeeperCommand::RotateSecretsKey => KeeperPlan::Unimplemented(
            not_yet("Phase 4", "dobby keeper rotate-secrets-key"),
        ),
    }
}

/// The `dobby pair` line printed after init.
pub open spec fn pair_hint_text(keeper_ip: IpAddress, fingerprint: Seq<char>, token: Seq<char>) -> Seq<
    char,
> {
    "dobby pair "@ + endpoint_text(keeper_ip) + " --fingerprint "@ + fingerprint + " --token "@
        + token
}

/// The command the operator runs on the workstation to pair with the
/// Keeper that init just set up.
pub fn pair_hint(keeper_ip: IpAddress, fingerprint: &str, token: &str) -> (s: String)
    ensures
        s@ == pair_hint_text(keeper_ip, fingerprint@, token@),
{
    let mut s = String::from_str("dobby pair ");
    let endpoint = keeper_endpoint(keeper_ip);
    s.append(endpoint.as_str());
    s.append(" --fingerprint ");
    s.append(fingerprint);
    s.append(" --token ");
    s.append(token);
    s
}

} // verus!
