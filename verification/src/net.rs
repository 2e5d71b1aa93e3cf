//! IP addresses as plain values, with their textual form.

use vstd::prelude::*;

verus! {

/// An IP address: four octets or eight 16-bit segments.
#[derive(Debug, Clone, Copy, PartialEq, Eq)]
pub enum IpAddress {
    /// An IPv4 address.
    V4([u8; 4]),
    /// An IPv6 address.
    V6([u16; 8]),
}

impl IpAddress {
    /// Whether this is an IPv4 address.
    pub fn is_ipv4(&self) -> (b: bool)
        ensures
            b == (*self is V4),
    {
        match self {
            IpAddress::V4(_) => true,
            IpAddress::V6(_) => false,
        }
    }
}

/// The address that `IpAddr`'s `FromStr` reads from `text`, if any.
pub uninterp spec fn ip_address_parse(text: Seq<char>) -> Option<IpAddress>;

/// The text that `IpAddr`'s `Display` writes for `ip`.
pub uninterp spec fn ip_address_text(ip: IpAddress) -> Seq<char>;

/// Parses an IPv4 or IPv6 address.
///
/// Trusted: calls `FromStr` of `core::net::IpAddr` and converts the
/// address to octets or segments; the outcome is a function of the text.
#[verifier::external_body]
pub(crate) fn parse_ip(text: &str) -> (r: Option<IpAddress>)
    ensures
        r == ip_address_parse(text@),
{
    match text.parse::<core::net::IpAddr>() {
        Ok(core::net::IpAddr::V4(a)) => Some(IpAddress::V4(a.octets())),
        Ok(core::net::IpAddr::V6(a)) => Some(IpAddress::V6(a.segments())),
        Err(_) => None,
    }
}

/// The conventional text of an address.
///
/// Trusted: converts to `core::net::IpAddr` and calls its `Display`
/// through `to_string`; the text is a function of the address.
#[verifier::external_body]
pub(crate) fn ip_to_string(ip: &IpAddress) -> (s: String)
    ensures
        s@ == ip_address_text(*ip),
{
    match ip {
        IpAddress::V4(o) => core::net::IpAddr::from(*o).to_string(),
        IpAddress::V6(s) => core::net::IpAddr::from(*s).to_string(),
    }
}

} // verus!
