//! The address, flag and error vocabulary shared with the guest.

use vstd::prelude::*;

verus! {

/// A size in bytes, as the guest states it.
pub type Size = u32;

/// An IPv4 address as its four octets, most significant first.
#[derive(Clone, Copy, Debug, PartialEq, Eq, Structural)]
pub struct AddrIp4 {
    pub n0: u8,
    pub n1: u8,
    pub h0: u8,
    pub h1: u8,
}

/// An IPv6 address as its eight 16-bit groups, most significant first.
#[derive(Clone, Copy, Debug, PartialEq, Eq, Structural)]
pub struct AddrIp6 {
    pub n0: u16,
    pub n1: u16,
    pub n2: u16,
    pub n3: u16,
    pub h0: u16,
    pub h1: u16,
    pub h2: u16,
    pub h3: u16,
}

/// An IPv4 endpoint: address and port, the port in host order.
#[derive(Clone, Copy, Debug, PartialEq, Eq, Structural)]
pub struct AddrIp4Port {
    pub addr: AddrIp4,
    pub port: u16,
}

/// An IPv6 endpoint: address and port, the port in host order.
#[derive(Clone, Copy, Debug, PartialEq, Eq, Structural)]
pub struct AddrIp6Port {
    pub addr: AddrIp6,
    pub port: u16,
}

/// The address that crosses the guest boundary: the variant is the tag.
#[derive(Clone, Copy, Debug, PartialEq, Eq, Structural)]
pub enum Addr {
    Ip4(AddrIp4Port),
    Ip6(AddrIp6Port),
}

/// The address family a socket is opened for.
#[derive(Clone, Copy, Debug, PartialEq, Eq, Structural)]
pub enum AddressFamily {
    Inet4,
    Inet6,
}

/// Whether a socket carries a byte stream or datagrams.
#[derive(Clone, Copy, Debug, PartialEq, Eq, Structural)]
pub enum SockType {
    SocketDgram,
    SocketStream,
}

/// The kind of resource behind a handle.
#[derive(Clone, Copy, Debug, PartialEq, Eq, Structural)]
pub enum Filetype {
    Unknown,
    BlockDevice,
    CharacterDevice,
    Directory,
    RegularFile,
    SocketDgram,
    SocketStream,
    SymbolicLink,
    AddressPool,
}

/// The conditions an operation can fail with.
#[derive(Clone, Copy, Debug, PartialEq, Eq, Structural)]
pub enum Errno {
    /// The descriptor is absent, or names a resource of the wrong kind.
    Badf,
    /// A malformed address, or a flag combination that means nothing.
    Inval,
    /// The endpoint lies outside every address pool attached to the handle.
    Notcapable,
    /// The resource kind does not implement the operation.
    Notsup,
    /// The address does not belong to the family the socket was opened for.
    Afnosupport,
    /// The operating system refused; its error code is kept as it came.
    Os(i32),
}

/// Flags of a receive call.
#[derive(Clone, Copy, Debug, PartialEq, Eq, Structural)]
pub struct Riflags {
    pub bits: u16,
}

/// Flags of a send call.
#[derive(Clone, Copy, Debug, PartialEq, Eq, Structural)]
pub struct Siflags {
    pub bits: u16,
}

/// Which directions of a connection to shut down.
#[derive(Clone, Copy, Debug, PartialEq, Eq, Structural)]
pub struct Sdflags {
    pub bits: u8,
}

/// Return the message without removing it from the queue.
pub const RIFLAGS_RECV_PEEK: u16 = 0x1;

/// Block until the whole buffer is filled.
pub const RIFLAGS_RECV_WAITALL: u16 = 0x2;

/// Disable further receives.
pub const SDFLAGS_RD: u8 = 0x1;

/// Disable further sends.
pub const SDFLAGS_WR: u8 = 0x2;

impl AddrIp4 {
    /// The address with the given octets, first octet first.
    pub fn from_octets(octets: [u8; 4]) -> (addr: AddrIp4)
        ensures
            addr == (AddrIp4 { n0: octets@[0], n1: octets@[1], h0: octets@[2], h1: octets@[3] }),
    {
        AddrIp4 { n0: octets[0], n1: octets[1], h0: octets[2], h1: octets[3] }
    }

    /// The four octets of the address, first octet first.
    pub fn octets(&self) -> (octets: [u8; 4])
        ensures
            octets@ == seq![self.n0, self.n1, self.h0, self.h1],
    {
        let octets = [self.n0, self.n1, self.h0, self.h1];
        assert(octets@ =~= seq![self.n0, self.n1, self.h0, self.h1]);
        octets
    }
}

impl AddrIp6 {
    /// The address with the given groups, first group first.
    pub fn from_segments(segments: [u16; 8]) -> (addr: AddrIp6)
        ensures
            addr == (AddrIp6 {
                n0: segments@[0],
                n1: segments@[1],
                n2: segments@[2],
                n3: segments@[3],
                h0: segments@[4],
                h1: segments@[5],
                h2: segments@[6],
                h3: segments@[7],
            }),
    {
        AddrIp6 {
            n0: segments[0],
            n1: segments[1],
            n2: segments[2],
            n3: segments[3],
            h0: segments[4],
            h1: segments[5],
            h2: segments[6],
            h3: segments[7],
        }
    }

    /// The eight groups of the address, first group first.
    pub fn segments(&self) -> (segments: [u16; 8])
        ensures
            segments@ == seq![
                self.n0,
                self.n1,
                self.n2,
                self.n3,
                self.h0,
                self.h1,
                self.h2,
                self.h3,
            ],
    {
        let segments = [self.n0, self.n1, self.n2, self.n3, self.h0, self.h1, self.h2, self.h3];
        assert(segments@ =~= seq![
            self.n0,
            self.n1,
            self.n2,
            self.n3,
            self.h0,
            self.h1,
            self.h2,
            self.h3,
        ]);
        segments
    }
}

impl AddrIp4Port {
    /// The endpoint with the given octets and port.
    pub fn from(octets: [u8; 4], port: u16) -> (endpoint: AddrIp4Port)
        ensures
            endpoint == (AddrIp4Port {
                addr: AddrIp4 { n0: octets@[0], n1: octets@[1], h0: octets@[2], h1: octets@[3] },
                port,
            }),
    {
        AddrIp4Port { addr: AddrIp4::from_octets(octets), port }
    }
}

impl AddrIp6Port {
    /// The endpoint with the given groups and port.
    pub fn from(segments: [u16; 8], port: u16) -> (endpoint: AddrIp6Port)
        ensures
            endpoint == (AddrIp6Port {
                addr: AddrIp6 {
                    n0: segments@[0],
                    n1: segments@[1],
                    n2: segments@[2],
                    n3: segments@[3],
                    h0: segments@[4],
                    h1: segments@[5],
                    h2: segments@[6],
                    h3: segments@[7],
                },
                port,
            }),
    {
        AddrIp6Port { addr: AddrIp6::from_segments(segments), port }
    }
}

impl Addr {
    /// The family the address belongs to.
    pub open spec fn spec_family(self) -> AddressFamily {
        match self {
            Addr::Ip4(_) => AddressFamily::Inet4,
            Addr::Ip6(_) => AddressFamily::Inet6,
        }
    }

    /// The port, whatever the family.
    pub open spec fn spec_port(self) -> u16 {
        match self {
            Addr::Ip4(a) => a.port,
            Addr::Ip6(a) => a.port,
        }
    }

    /// The family the address belongs to.
    pub fn family(&self) -> (family: AddressFamily)
        ensures
            family == self.spec_family(),
    {
        match self {
            Addr::Ip4(_) => AddressFamily::Inet4,
            Addr::Ip6(_) => AddressFamily::Inet6,
        }
    }

    /// The port, whatever the family.
    pub fn port(&self) -> (port: u16)
        ensures
            port == self.spec_port(),
    {
        match self {
            Addr::Ip4(a) => a.port,
            Addr::Ip6(a) => a.port,
        }
    }
}

impl Riflags {
    /// Whether every bit of `flag` is set.
    pub open spec fn spec_has(self, flag: u16) -> bool {
        self.bits & flag == flag
    }

    /// Whether every bit of `flag` is set.
    pub fn has(&self, flag: u16) -> (set: bool)
        ensures
            set == self.spec_has(flag),
    {
        self.bits & flag == flag
    }
}

impl Sdflags {
    /// Whether every bit of `flag` is set.
    pub open spec fn spec_has(self, flag: u8) -> bool {
        self.bits & flag == flag
    }

    /// Whether every bit of `flag` is set.
    pub fn has(&self, flag: u8) -> (set: bool)
        ensures
            set == self.spec_has(flag),
    {
        self.bits & flag == flag
    }
}

impl Filetype {
    /// The resource kind of a socket of the given type.
    pub open spec fn spec_from(t: SockType) -> Filetype {
        match t {
            SockType::SocketStream => Filetype::SocketStream,
            SockType::SocketDgram => Filetype::SocketDgram,
        }
    }

    /// The resource kind of a socket of the given type.
    pub fn from(t: SockType) -> (kind: Filetype)
        ensures
            kind == Self::spec_from(t),
    {
        match t {
            SockType::SocketStream => Filetype::SocketStream,
            SockType::SocketDgram => Filetype::SocketDgram,
        }
    }
}

} // verus!
