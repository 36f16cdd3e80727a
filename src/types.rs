//! Plain values shared by the engine's components.
use vstd::prelude::*;

verus! {

/// A native (operating-system) socket handle.
pub type RawFd = i32;

/// Linux `AF_INET`: the IPv4 communication domain.
pub const AF_INET: i32 = 2;

/// Linux `SOCK_STREAM`: a connection-oriented socket.
pub const SOCK_STREAM: i32 = 1;

/// Linux `SOCK_DGRAM`: a datagram socket.
pub const SOCK_DGRAM: i32 = 2;

/// A queue descriptor: the caller-visible name of an I/O endpoint.
#[derive(Clone, Copy, Debug, PartialEq, Eq, Structural)]
pub struct QDesc(pub u32);

/// A queue token: the caller-visible name of one scheduled operation.
#[derive(Clone, Copy, Debug, PartialEq, Eq, Structural)]
pub struct QToken(pub u64);

/// The kind of endpoint a queue descriptor stands for.
#[derive(Clone, Copy, Debug, PartialEq, Eq, Structural)]
pub enum QType {
    TcpSocket,
    UdpSocket,
}

/// An IPv4 address and port.
#[derive(Clone, Copy, Debug)]
pub struct Ipv4Endpoint {
    pub addr: [u8; 4],
    pub port: u16,
}

/// An IPv4 socket address laid out as the kernel's `sockaddr_in`: family,
/// port, and the four address octets read as a little-endian integer.
#[derive(Clone, Copy, Debug, PartialEq, Eq, Structural)]
pub struct SockaddrIn {
    pub family: u16,
    pub port: u16,
    pub addr: u32,
}

/// The four octets read as a little-endian integer.
pub open spec fn le_value(o: Seq<u8>) -> int {
    o[0] + 256 * o[1] + 65536 * o[2] + 16777216 * o[3]
}

/// The `sockaddr_in` form of an endpoint.
pub open spec fn spec_sockaddr_of(ep: Ipv4Endpoint) -> SockaddrIn {
    SockaddrIn { family: AF_INET as u16, port: ep.port, addr: le_value(ep.addr@) as u32 }
}

/// The all-zero `sockaddr_in`.
pub open spec fn spec_zero_sockaddr() -> SockaddrIn {
    SockaddrIn { family: 0, port: 0, addr: 0 }
}

/// Lays out an endpoint as a `sockaddr_in`.
pub fn sockaddr_of(ep: Ipv4Endpoint) -> (r: SockaddrIn)
    ensures
        r == spec_sockaddr_of(ep),
{
    let a: u32 = ep.addr[0] as u32 + 256 * (ep.addr[1] as u32) + 65536 * (ep.addr[2] as u32)
        + 16777216 * (ep.addr[3] as u32);
    SockaddrIn { family: AF_INET as u16, port: ep.port, addr: a }
}

} // verus!
