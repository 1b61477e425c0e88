//! Startup options for the engine: the multicast group to join, the UDP port
//! to bind, and the address-reuse flag. A group address outside the IPv4
//! multicast range is rejected before any socket is created: a bad
//! configuration is fatal at startup, never retried.

use vstd::prelude::*;

verus! {

/// Why a configuration was rejected before any socket was created.
#[derive(Clone, Copy, Debug, PartialEq, Eq, Structural)]
pub enum ConfigError {
    /// The group address is outside the IPv4 multicast range
    /// `224.0.0.0 ..= 239.255.255.255`.
    NotMulticast,
}

/// An IPv4 address, given by its four octets in network order.
#[derive(Clone, Copy, Debug, PartialEq, Eq, Structural)]
pub struct Ipv4Addr4 {
    pub o0: u8,
    pub o1: u8,
    pub o2: u8,
    pub o3: u8,
}

/// True exactly when the address lies in the IPv4 multicast range,
/// `224.0.0.0` through `239.255.255.255`: the first octet is `224 ..= 239`.
pub open spec fn spec_is_multicast(a: Ipv4Addr4) -> bool {
    224 <= a.o0 && a.o0 <= 239
}

impl Ipv4Addr4 {
    pub fn new(o0: u8, o1: u8, o2: u8, o3: u8) -> (a: Ipv4Addr4)
        ensures
            a == (Ipv4Addr4 { o0, o1, o2, o3 }),
    {
        Ipv4Addr4 { o0, o1, o2, o3 }
    }

    /// Whether the address may serve as a multicast group.
    pub fn is_multicast(&self) -> (b: bool)
        ensures
            b == spec_is_multicast(*self),
    {
        224 <= self.o0 && self.o0 <= 239
    }
}

/// The enumerated startup options: group address, port, address reuse.
#[derive(Clone, Copy, Debug, PartialEq, Eq, Structural)]
pub struct Config {
    pub addr: Ipv4Addr4,
    pub port: u16,
    pub reuse: bool,
}

/// A configuration is valid exactly when its group address is multicast.
pub open spec fn spec_valid_config(c: Config) -> bool {
    spec_is_multicast(c.addr)
}

impl Config {
    /// Builds a configuration, rejecting a group address outside the
    /// multicast range; success exactly on a multicast address.
    pub fn build(addr: Ipv4Addr4, port: u16, reuse: bool) -> (r: Result<Config, ConfigError>)
        ensures
            spec_is_multicast(addr) ==> r == Ok::<Config, ConfigError>(
                Config { addr, port, reuse },
            ),
            !spec_is_multicast(addr) ==> r == Err::<Config, ConfigError>(ConfigError::NotMulticast),
    {
        if addr.is_multicast() {
            Ok(Config { addr, port, reuse })
        } else {
            Err(ConfigError::NotMulticast)
        }
    }

    /// The default options: group `224.0.0.69`, port `3000`, no reuse.
    pub fn with_defaults() -> (c: Config)
        ensures
            c.addr == (Ipv4Addr4 { o0: 224, o1: 0, o2: 0, o3: 69 }),
            c.port == 3000,
            !c.reuse,
            spec_valid_config(c),
    {
        Config { addr: Ipv4Addr4 { o0: 224, o1: 0, o2: 0, o3: 69 }, port: 3000, reuse: false }
    }
}

} // verus!
