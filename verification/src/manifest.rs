//! `dobby.toml` — the per-app deployment manifest.
//!
//! Every section is a distinct strongly-typed struct. Tables keyed by name
//! are held as lists of `(name, value)` pairs in key order; a well-formed
//! manifest names each key once per table. Reading the TOML is done around
//! this library; convention-over-configuration defaults are applied after
//! parsing by [`Manifest::apply_defaults`], which keeps the parse honest
//! about what was in the file.

use vstd::prelude::*;

use crate::text::{chars_of, last_segment, parse_unsigned, parse_unsigned_in, rfind_char};

verus! {

broadcast use vstd::string::group_string_axioms;

/// Errors reading `dobby.toml`.
#[derive(Debug, Clone, PartialEq, Eq)]
pub enum ManifestError {
    /// Failed to read the file from disk.
    Io {
        /// The manifest path.
        path: String,
        /// The filesystem's description of the failure.
        message: String,
    },
    /// Failed to parse as TOML / apply the struct schema.
    Toml {
        /// The manifest path.
        path: String,
        /// The parser's description of the failure.
        message: String,
    },
}

/// A parsed per-app manifest.
#[derive(Debug, Clone, PartialEq)]
pub struct Manifest {
    /// `[app]`.
    pub app: AppSection,
    /// `[container]`.
    pub container: Option<ContainerSection>,
    /// Shared environment variables; services opt in by name via `env_from`.
    pub environment: Vec<(String, String)>,
    /// Service declarations, keyed by logical service name.
    pub services: Vec<(String, Service)>,
    /// Explicit reverse-proxy route table.
    pub proxy: Vec<(String, ProxyEntry)>,
    /// Per-service health-check overrides.
    pub health: Vec<(String, HealthEntry)>,
    /// Per-service sandbox overrides.
    pub sandbox: Vec<(String, SandboxEntry)>,
}

/// `[app]`.
#[derive(Debug, Clone, PartialEq, Eq)]
pub struct AppSection {
    /// App name.
    pub name: String,
    /// `owner/repo` on GitHub.
    pub repo: String,
    /// Deploy trigger: `release` (default), `branch:<name>`, or none.
    pub trigger: Option<String>,
    /// Watcher poll interval (default `5m`).
    pub interval: Option<String>,
}

/// `[container]`.
#[derive(Debug, Clone, PartialEq, Eq)]
pub struct ContainerSection {
    /// LXC template.
    pub template: String,
    /// CPU cores.
    pub cores: u32,
    /// Memory limit in MiB.
    pub memory: u32,
    /// Root-disk size in GiB.
    pub disk: u32,
}

/// Service type; absent in TOML means `binary`.
#[derive(Debug, Clone, Copy, PartialEq, Eq, Structural)]
pub enum ServiceKind {
    /// Binary artefact built from this repo.
    Binary,
    /// Pre-existing resource registered via `dobby register`.
    External,
    /// OCI image run under the native runtime.
    Container,
    /// apt-installed package managed by the native systemd unit.
    System,
}

/// systemd `Restart=` policy.
#[derive(Debug, Clone, Copy, PartialEq, Eq, Structural)]
pub enum RestartPolicy {
    /// `Restart=always` (the default).
    Always,
    /// `Restart=on-failure`.
    OnFailure,
    /// `Restart=no`.
    Never,
}

/// A port declaration: a number, or a `"host:container"` mapping string.
#[derive(Debug, Clone, PartialEq, Eq)]
pub enum PortSpec {
    /// A single port.
    Single(u16),
    /// A mapping string, conventionally `"host:container"`.
    Mapping(String),
}

/// A `[services.<name>]` block.
#[derive(Debug, Clone, PartialEq)]
pub struct Service {
    /// Service type.
    pub kind: ServiceKind,
    /// Override of the artefact file name (binary). Default: the service key.
    pub artifact: Option<String>,
    /// Override of the systemd `ExecStart=` (binary).
    pub exec_start: Option<String>,
    /// External host (external).
    pub host: Option<String>,
    /// External port (external).
    pub port: Option<u16>,
    /// OCI image reference (container).
    pub image: Option<String>,
    /// Bind-mounts in `src:dst` form (container).
    pub volumes: Vec<String>,
    /// apt package name (system).
    pub package: Option<String>,
    /// Ports the service listens on; the first is the proxy default.
    pub ports: Vec<PortSpec>,
    /// Services that must be healthy before this one starts.
    pub depends: Vec<String>,
    /// Opt-in subset of `[environment]`.
    pub env_from: Vec<String>,
    /// Service-specific environment literals and `${VAR}` secrets.
    pub env: Vec<(String, String)>,
    /// Memory ceiling (MiB).
    pub memory: Option<u32>,
    /// CPU ceiling in fractional cores, as the bits of its IEEE-754 `f64`.
    pub cpu_bits: Option<u64>,
    /// systemd `Restart=` policy.
    pub restart: Option<RestartPolicy>,
}

/// `[proxy.<name>]`.
#[derive(Debug, Clone, PartialEq, Eq)]
pub struct ProxyEntry {
    /// Hostname segment, e.g. `explorer` serves `explorer.<app>.dobby`.
    pub domain: String,
    /// Upstream port.
    pub port: u16,
}

/// `[health.<name>]`.
#[derive(Debug, Clone, PartialEq, Eq)]
pub struct HealthEntry {
    /// HTTP GET path.
    pub http: Option<String>,
    /// Explicit health-check port.
    pub port: Option<u16>,
    /// Shell command that must exit 0.
    pub exec_command: Option<String>,
    /// Poll interval.
    pub interval: Option<String>,
}

/// `[sandbox.<name>]`.
#[derive(Debug, Clone, PartialEq, Eq)]
pub struct SandboxEntry {
    /// Network policy (`"restricted"` enables an allowlist).
    pub network: Option<String>,
    /// Additional `host:port` entries to permit.
    pub network_allow: Vec<String>,
    /// Additional writable paths.
    pub writable: Vec<String>,
    /// Whether `ProtectProc=invisible` stays on.
    pub protect_proc: Option<bool>,
}

/// Default watcher trigger applied when `[app].trigger` is absent.
pub const DEFAULT_TRIGGER: &'static str = "release";

/// Default watcher poll interval applied when `[app].interval` is absent.
pub const DEFAULT_INTERVAL: &'static str = "5m";

// ── ports ────────────────────────────────────────────────────────────────

impl PortSpec {
    /// The port the service binds inside the container: the number itself,
    /// or the part of a mapping after its last colon read as a `u16`.
    pub fn container_port(&self) -> (r: Option<u16>)
        ensures
            *self matches PortSpec::Single(p) ==> r == Some(p),
            *self matches PortSpec::Mapping(s) ==> r == match parse_unsigned(
                last_segment(s@, ':'),
                65535,
            ) {
                Some(v) => Some(v as u16),
                None => None::<u16>,
            },
    {
        match self {
            PortSpec::Single(p) => Some(*p),
            PortSpec::Mapping(s) => {
                let chars = chars_of(s.as_str());
                let n = chars.len();
                let start = match rfind_char(chars.as_slice(), ':') {
                    Some(i) => i + 1,
                    None => 0,
                };
                proof {
                    assert(chars@.subrange(0, chars@.len() as int) =~= chars@);
                }
                match parse_unsigned_in(chars.as_slice(), start, n, 65535) {
                    Some(v) => Some(v as u16),
                    None => None,
                }
            },
        }
    }
}

// ── defaults ─────────────────────────────────────────────────────────────

/// The text inside an optional string.
pub open spec fn opt_text(o: Option<String>) -> Option<Seq<char>> {
    match o {
        Some(s) => Some(s@),
        None => None,
    }
}

/// `/opt/<app>/<service>/current/<artifact>`.
pub open spec fn default_exec_start(app: Seq<char>, name: Seq<char>, artifact: Seq<char>) -> Seq<
    char,
> {
    "/opt/"@ + app + "/"@ + name + "/current/"@ + artifact
}

/// The fields that defaulting never touches are equal.
pub open spec fn same_undefaulted_fields(a: Service, b: Service) -> bool {
    &&& a.kind == b.kind
    &&& a.host == b.host
    &&& a.port == b.port
    &&& a.image == b.image
    &&& a.volumes == b.volumes
    &&& a.package == b.package
    &&& a.ports == b.ports
    &&& a.depends == b.depends
    &&& a.env_from == b.env_from
    &&& a.env == b.env
    &&& a.memory == b.memory
    &&& a.cpu_bits == b.cpu_bits
}

/// `new` is `old` with the defaults of service `name` of app `app`: a binary
/// service gets its artefact (the service name), its `ExecStart=` and
/// restart policy `always`; container and system services get restart
/// `always`; external services get nothing. Explicit values are kept.
pub open spec fn service_defaults(app: Seq<char>, name: Seq<char>, old: Service, new: Service) -> bool {
    &&& same_undefaulted_fields(old, new)
    &&& match old.kind {
        ServiceKind::Binary => {
            let artifact = if old.artifact is None {
                name
            } else {
                old.artifact->0@
            };
            &&& opt_text(new.artifact) == Some(artifact)
            &&& (old.artifact is Some ==> new.artifact == old.artifact)
            &&& opt_text(new.exec_start) == (if old.exec_start is None {
                Some(default_exec_start(app, name, artifact))
            } else {
                opt_text(old.exec_start)
            })
            &&& (old.exec_start is Some ==> new.exec_start == old.exec_start)
            &&& new.restart == (if old.restart is None {
                Some(RestartPolicy::Always)
            } else {
                old.restart
            })
        },
        ServiceKind::External => {
            &&& new.artifact == old.artifact
            &&& new.exec_start == old.exec_start
            &&& new.restart == old.restart
        },
        _ => {
            &&& new.artifact == old.artifact
            &&& new.exec_start == old.exec_start
            &&& new.restart == (if old.restart is None {
                Some(RestartPolicy::Always)
            } else {
                old.restart
            })
        },
    }
}

/// Fills in the defaults of service `name` of app `app`.
pub fn apply_service_defaults(app: &str, name: &str, svc: &mut Service)
    ensures
        service_defaults(app@, name@, *old(svc), *final(svc)),
        old(svc).restart is Some ==> final(svc).restart == old(svc).restart,
        old(svc).artifact is Some ==> final(svc).artifact == old(svc).artifact,
        old(svc).exec_start is Some ==> final(svc).exec_start == old(svc).exec_start,
        old(svc).restart is None && old(svc).kind != ServiceKind::External ==> final(svc).restart
            == Some(RestartPolicy::Always),
        old(svc).kind == ServiceKind::External ==> *final(svc) == *old(svc),
{
    match svc.kind {
        ServiceKind::Binary => {
            if svc.artifact.is_none() {
                svc.artifact = Some(String::from_str(name));
            }
            if svc.exec_start.is_none() {
                let artifact = match &svc.artifact {
                    Some(a) => a.clone(),
                    None => String::from_str(name),
                };
                let mut exec_start = String::from_str("/opt/");
                exec_start.append(app);
                exec_start.append("/");
                exec_start.append(name);
                exec_start.append("/current/");
                exec_start.append(artifact.as_str());
                svc.exec_start = Some(exec_start);
            }
            if svc.restart.is_none() {
                svc.restart = Some(RestartPolicy::Always);
            }
        },
        ServiceKind::External => {},
        ServiceKind::Container | ServiceKind::System => {
            if svc.restart.is_none() {
                svc.restart = Some(RestartPolicy::Always);
            }
        },
    }
}

/// `new` is `old` with the app-level defaults: trigger `release` and
/// interval `5m` where absent.
pub open spec fn app_defaults(old: AppSection, new: AppSection) -> bool {
    &&& new.name == old.name
    &&& new.repo == old.repo
    &&& opt_text(new.trigger) == (if old.trigger is None {
        Some(DEFAULT_TRIGGER@)
    } else {
        opt_text(old.trigger)
    })
    &&& (old.trigger is Some ==> new.trigger == old.trigger)
    &&& opt_text(new.interval) == (if old.interval is None {
        Some(DEFAULT_INTERVAL@)
    } else {
        opt_text(old.interval)
    })
    &&& (old.interval is Some ==> new.interval == old.interval)
}

/// Fills in the app-level defaults.
pub fn apply_app_defaults(app: &mut AppSection)
    ensures
        app_defaults(*old(app), *final(app)),
{
    if app.trigger.is_none() {
        app.trigger = Some(String::from_str(DEFAULT_TRIGGER));
    }
    if app.interval.is_none() {
        app.interval = Some(String::from_str(DEFAULT_INTERVAL));
    }
}

/// The names of a keyed table.
pub open spec fn table_keys<V>(t: Seq<(String, V)>) -> Seq<Seq<char>> {
    t.map_values(|e: (String, V)| e.0@)
}

/// No name occurs twice in a keyed table.
pub open spec fn unique_keys<V>(t: Seq<(String, V)>) -> bool {
    forall|i: int, j: int|
        0 <= i < j < t.len() ==> #[trigger] t[i].0@ != #[trigger] t[j].0@
}

impl Manifest {
    /// Every keyed table names each key once.
    pub open spec fn well_formed(&self) -> bool {
        &&& unique_keys(self.environment@)
        &&& unique_keys(self.services@)
        &&& unique_keys(self.proxy@)
        &&& unique_keys(self.health@)
        &&& unique_keys(self.sandbox@)
    }

    /// `new` is `old` with every default applied.
    pub open spec fn defaults_applied(old: Manifest, new: Manifest) -> bool {
        &&& app_defaults(old.app, new.app)
        &&& new.container == old.container
        &&& new.environment == old.environment
        &&& new.proxy == old.proxy
        &&& new.health == old.health
        &&& new.sandbox == old.sandbox
        &&& new.services@.len() == old.services@.len()
        &&& forall|i: int|
            0 <= i < old.services@.len() ==> #[trigger] new.services@[i].0 == old.services@[i].0
                && service_defaults(
                old.app.name@,
                old.services@[i].0@,
                old.services@[i].1,
                new.services@[i].1,
            )
    }

    /// Applies convention-over-configuration defaults in place: app-level
    /// trigger and interval, then per-service defaults.
    pub fn apply_defaults(&mut self)
        ensures
            Manifest::defaults_applied(*old(self), *final(self)),
            old(self).well_formed() ==> final(self).well_formed(),
    {
        apply_app_defaults(&mut self.app);
        let app = self.app.name.clone();
        let mut services: Vec<(String, Service)> = Vec::new();
        core::mem::swap(&mut services, &mut self.services);
        let ghost orig = services@;
        let mut out: Vec<(String, Service)> = Vec::new();
        while services.len() > 0
            invariant
                app@ == old(self).app.name@,
                orig == old(self).services@,
                out@.len() + services@.len() == orig.len(),
                services@ == orig.subrange(out@.len() as int, orig.len() as int),
                forall|j: int|
                    0 <= j < out@.len() ==> #[trigger] out@[j].0 == orig[j].0 && service_defaults(
                        app@,
                        orig[j].0@,
                        orig[j].1,
                        out@[j].1,
                    ),
            decreases services@.len(),
        {
            let ghost k = out@.len();
            let (name, mut svc) = services.remove(0);
            assert(name == orig[k as int].0 && svc == orig[k as int].1);
            apply_service_defaults(app.as_str(), name.as_str(), &mut svc);
            out.push((name, svc));
            proof {
                assert(services@ =~= orig.subrange(out@.len() as int, orig.len() as int));
            }
        }
        self.services = out;
        proof {
            if old(self).well_formed() {
                assert forall|i: int, j: int|
                    0 <= i < j < self.services@.len() implies #[trigger] self.services@[i].0@
                    != #[trigger] self.services@[j].0@ by {
                    assert(self.services@[i].0 == orig[i].0);
                    assert(self.services@[j].0 == orig[j].0);
                }
            }
        }
    }
}

/// Applying the defaults twice gives what applying them once gives.
pub proof fn law_service_defaults_idempotent(
    app: Seq<char>,
    name: Seq<char>,
    a: Service,
    b: Service,
    c: Service,
)
    requires
        service_defaults(app, name, a, b),
        service_defaults(app, name, b, c),
    ensures
        same_undefaulted_fields(b, c),
        opt_text(c.artifact) == opt_text(b.artifact),
        opt_text(c.exec_start) == opt_text(b.exec_start),
        c.restart == b.restart,
{
}

/// Defaulting never overrides an explicit value: whatever the kind of the
/// service, a restart policy, artefact or `ExecStart=` that was given is
/// the one that comes out; only an absent restart policy of a service
/// that dobby runs becomes `always`.
pub proof fn law_defaults_keep_explicit_values(app: Seq<char>, name: Seq<char>, a: Service, b: Service)
    requires
        service_defaults(app, name, a, b),
    ensures
        a.restart is Some ==> b.restart == a.restart,
        a.artifact is Some ==> b.artifact == a.artifact,
        a.exec_start is Some ==> b.exec_start == a.exec_start,
        a.restart is None && a.kind != ServiceKind::External ==> b.restart == Some(
            RestartPolicy::Always,
        ),
        a.kind == ServiceKind::Binary && a.artifact is None ==> opt_text(b.artifact) == Some(name),
        a.kind != ServiceKind::Binary ==> b.artifact == a.artifact && b.exec_start == a.exec_start,
        a.kind == ServiceKind::External ==> b == a,
        b.kind == a.kind,
{
}

/// Applying the manifest defaults keeps every explicit restart policy, and
/// gives every service that dobby runs a restart policy.
pub proof fn law_manifest_defaults_keep_restart(a: Manifest, b: Manifest, i: int)
    requires
        Manifest::defaults_applied(a, b),
        0 <= i < a.services@.len(),
    ensures
        b.services@[i].0 == a.services@[i].0,
        a.services@[i].1.restart is Some ==> b.services@[i].1.restart == a.services@[i].1.restart,
        a.services@[i].1.kind != ServiceKind::External ==> b.services@[i].1.restart is Some,
{
    law_defaults_keep_explicit_values(
        a.app.name@,
        a.services@[i].0@,
        a.services@[i].1,
        b.services@[i].1,
    );
}

/// External services never get a restart policy by default.
pub proof fn law_external_keeps_restart(app: Seq<char>, name: Seq<char>, a: Service, b: Service)
    requires
        service_defaults(app, name, a, b),
        a.kind == ServiceKind::External,
    ensures
        b.restart == a.restart,
{
}

/// Applying the defaults to a manifest whose defaults were already applied
/// changes nothing.
pub proof fn law_apply_defaults_idempotent(a: Manifest, b: Manifest, c: Manifest)
    requires
        Manifest::defaults_applied(a, b),
        Manifest::defaults_applied(b, c),
    ensures
        c.app == b.app,
        c.container == b.container,
        c.environment == b.environment,
        c.services@ == b.services@,
        c.proxy == b.proxy,
        c.health == b.health,
        c.sandbox == b.sandbox,
{
    assert(c.app == b.app);
    assert forall|i: int| 0 <= i < b.services@.len() implies #[trigger] c.services@[i] == b.services@[i] by {
        assert(c.services@[i].0 == b.services@[i].0);
        assert(service_defaults(b.app.name@, b.services@[i].0@, b.services@[i].1, c.services@[i].1));
        assert(service_defaults(a.app.name@, a.services@[i].0@, a.services@[i].1, b.services@[i].1));
        assert(c.services@[i].1 == b.services@[i].1);
    }
    assert(c.services@ =~= b.services@);
}

} // verus!
