//! Socket addresses as plain values: the IP address and the port.

use vstd::prelude::*;

verus! {

/// An IP address, by its numeric parts.
#[derive(Clone, Copy, Debug, PartialEq, Eq, Structural)]
pub enum EIpAddr {
    /// An IPv4 address, by its four octets.
    V4(u8, u8, u8, u8),
    /// An IPv6 address, by its eight segments.
    V6(u16, u16, u16, u16, u16, u16, u16, u16),
}

/// A socket address: IP address and port.
#[derive(Clone, Copy, Debug, PartialEq, Eq, Structural)]
pub struct ESocketAddr {
    /// The IP address.
    pub ip: EIpAddr,
    /// The port.
    pub port: u16,
}

/// Whether `ip` is a loopback address: `127.0.0.0/8` or `::1`.
pub open spec fn is_loopback_ip(ip: EIpAddr) -> bool {
    match ip {
        EIpAddr::V4(a, _, _, _) => a == 127,
        EIpAddr::V6(a, b, c, d, e, f, g, h) => a == 0 && b == 0 && c == 0 && d == 0 && e == 0
            && f == 0 && g == 0 && h == 1,
    }
}

impl ESocketAddr {
    /// The IPv4 socket address `a.b.c.d:port`.
    pub fn v4(a: u8, b: u8, c: u8, d: u8, port: u16) -> (r: ESocketAddr)
        ensures
            r == (ESocketAddr { ip: EIpAddr::V4(a, b, c, d), port }),
    {
        ESocketAddr { ip: EIpAddr::V4(a, b, c, d), port }
    }

    /// Whether the address is on the loopback interface.
    pub fn is_loopback(&self) -> (r: bool)
        ensures
            r == is_loopback_ip(self.ip),
    {
        match self.ip {
            EIpAddr::V4(a, _, _, _) => a == 127,
            EIpAddr::V6(a, b, c, d, e, f, g, h) => a == 0 && b == 0 && c == 0 && d == 0 && e == 0
                && f == 0 && g == 0 && h == 1,
        }
    }
}

} // verus!
