//! `keeper.toml` — non-secret Keeper configuration on the Keeper LXC.
//!
//! Holds the `[network]` section populated by `dobby keeper init`. The
//! TOML form is read and written around this library.

use vstd::prelude::*;

use crate::net::IpAddress;

verus! {

/// Top-level Keeper configuration.
#[derive(Debug, Clone)]
pub struct KeeperConfig {
    /// The `[network]` section.
    pub network: Network,
}

/// `[network]` — subnet, bridge, allocation range, Keeper's own IP.
#[derive(Debug, Clone)]
pub struct Network {
    /// Proxmox bridge name (`vmbr0` by convention).
    pub bridge: String,
    /// LAN subnet in CIDR form (e.g. `10.0.0.0/24`).
    pub subnet: String,
    /// Pool of IPs allocated to managed LXCs, as `first-last`.
    pub static_range: String,
    /// Keeper LXC's own static IP.
    pub keeper_ip: IpAddress,
    /// LAN gateway — the router on `bridge`.
    pub gateway: IpAddress,
    /// Upstream DNS forwarded to for non-`.dobby` queries.
    pub dns_upstream: IpAddress,
}

/// The upstream DNS used when `keeper.toml` names none: `1.1.1.1`.
pub fn default_dns_upstream() -> (ip: IpAddress)
    ensures
        ip == IpAddress::V4([1u8, 1u8, 1u8, 1u8]),
{
    IpAddress::V4([1u8, 1u8, 1u8, 1u8])
}

} // verus!
