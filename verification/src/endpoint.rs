//! Addresses and endpoints for datagram sockets.

use vstd::prelude::*;

verus! {

/// An IPv4 address, stored as four octets.
#[derive(Clone, Copy, PartialEq, Eq, Debug, Structural)]
pub struct IpAddress {
    pub o0: u8,
    pub o1: u8,
    pub o2: u8,
    pub o3: u8,
}

impl IpAddress {
    /// The all-zero address names no host: nothing can be addressed with it.
    pub open spec fn spec_is_unspecified(self) -> bool {
        self.o0 == 0 && self.o1 == 0 && self.o2 == 0 && self.o3 == 0
    }

    pub fn new(o0: u8, o1: u8, o2: u8, o3: u8) -> (r: IpAddress)
        ensures
            r == (IpAddress { o0, o1, o2, o3 }),
    {
        IpAddress { o0, o1, o2, o3 }
    }

    pub fn is_unspecified(&self) -> (r: bool)
        ensures
            r == self.spec_is_unspecified(),
    {
        self.o0 == 0 && self.o1 == 0 && self.o2 == 0 && self.o3 == 0
    }
}

/// A remote endpoint: the concrete address and port a datagram is sent to
/// or was received from.
#[derive(Clone, Copy, PartialEq, Eq, Debug, Structural)]
pub struct IpEndpoint {
    pub addr: IpAddress,
    pub port: u16,
}

impl IpEndpoint {
    /// A datagram can be routed to an endpoint exactly when the port is
    /// nonzero and the address names a host.
    pub open spec fn spec_is_routable(self) -> bool {
        self.port != 0 && !self.addr.spec_is_unspecified()
    }

    pub fn new(addr: IpAddress, port: u16) -> (r: IpEndpoint)
        ensures
            r == (IpEndpoint { addr, port }),
    {
        IpEndpoint { addr, port }
    }

    pub fn is_routable(&self) -> (r: bool)
        ensures
            r == self.spec_is_routable(),
    {
        self.port != 0 && !self.addr.is_unspecified()
    }
}

/// A listen endpoint: the local binding of a socket. `addr == None` means
/// the wildcard address; `port == 0` means the socket is unbound (a caller
/// passing port zero to `bind` asks for an ephemeral port).
#[derive(Clone, Copy, PartialEq, Eq, Debug, Structural)]
pub struct IpListenEndpoint {
    pub addr: Option<IpAddress>,
    pub port: u16,
}

impl IpListenEndpoint {
    /// The unbound endpoint: wildcard address, port zero.
    pub open spec fn spec_unbound() -> IpListenEndpoint {
        IpListenEndpoint { addr: None, port: 0 }
    }

    pub fn unbound() -> (r: IpListenEndpoint)
        ensures
            r == IpListenEndpoint::spec_unbound(),
    {
        IpListenEndpoint { addr: None, port: 0 }
    }
}

} // verus!
