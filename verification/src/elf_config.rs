//! `elf.toml` — non-secret Elf configuration inside each managed LXC:
//! where the Keeper listens and where the mTLS material lies.

use vstd::prelude::*;

verus! {

/// Non-secret configuration consumed by `dobby elf start`.
#[derive(Debug, Clone, PartialEq, Eq)]
pub struct ElfConfig {
    /// Keeper gRPC endpoint the Elf connects back to.
    pub keeper: KeeperAddress,
    /// Local paths to the CA, client certificate and client key.
    pub tls: TlsPaths,
}

/// Keeper network endpoint stored in `elf.toml`.
#[derive(Debug, Clone, PartialEq, Eq)]
pub struct KeeperAddress {
    /// DNS name or IP address of the Keeper gRPC listener.
    pub host: String,
    /// TCP port of the Keeper gRPC listener.
    pub port: u16,
}

/// mTLS material paths used by the Elf gRPC client and server.
#[derive(Debug, Clone, PartialEq, Eq)]
pub struct TlsPaths {
    /// CA certificate path used to trust the Keeper.
    pub ca: String,
    /// Elf certificate path presented to the Keeper.
    pub cert: String,
    /// Elf private-key path paired with `cert`.
    pub key: String,
}

} // verus!
