//! The platform's side of a socket call: families, types, flags and the socket
//! address structure, held as plain values.

use vstd::prelude::*;

verus! {

/// The address families a native socket can be opened for.
#[derive(Clone, Copy, Debug, PartialEq, Eq, Structural)]
pub enum AddressFamily {
    InetAddr,
    Inet6Addr,
}

/// The transport protocols a native socket can be opened for.
#[derive(Clone, Copy, Debug, PartialEq, Eq, Structural)]
pub enum SockProtocol {
    Tcp,
    Udp,
}

/// The socket types the platform knows.
#[derive(Clone, Copy, Debug, PartialEq, Eq, Structural)]
pub enum SockType {
    Stream,
    Datagram,
    SeqPacket,
    Raw,
    Rdm,
}

/// Which directions a native shutdown closes.
#[derive(Clone, Copy, Debug, PartialEq, Eq, Structural)]
pub enum ShutdownMode {
    Write,
    Read,
    Both,
}

/// Flags of a native receive call.
#[derive(Clone, Copy, Debug, PartialEq, Eq, Structural)]
pub struct RecvFlags {
    pub oob: bool,
    pub peek: bool,
    pub wait_all: bool,
}

/// Flags of a native send call.
#[derive(Clone, Copy, Debug, PartialEq, Eq, Structural)]
pub struct SendFlags {
    pub oob: bool,
    pub dontroute: bool,
}

/// An IPv4 address as the platform stores it: four bytes in network order.
#[derive(Clone, Copy, Debug, PartialEq, Eq)]
pub struct InAddr {
    pub s_addr: [u8; 4],
}

/// An IPv6 address as the platform stores it: sixteen bytes in network order.
#[derive(Clone, Copy, Debug, PartialEq, Eq)]
pub struct In6Addr {
    pub s6_addr: [u8; 16],
}

/// The number of bytes that follow the family field in a socket address: as
/// many as the IPv6 structure, the larger of the two, needs.
pub const SOCKADDR_DATA_LEN: usize = 26;

/// The declared length of an IPv4 socket address structure.
pub const SOCKADDR_IN_LEN: u32 = 16;

/// The declared length of an IPv6 socket address structure.
pub const SOCKADDR_IN6_LEN: u32 = 28;

/// A native socket address: the family field, the bytes that follow it in
/// memory, and the length the structure is declared with.
///
/// For IPv4 the bytes hold the port (2, network order) and the address (4).
/// For IPv6 they hold the port (2, network order), the flow label (4), the
/// address (16) and the scope (4).
#[derive(Clone, Copy, Debug, PartialEq, Eq)]
pub struct SockAddr {
    pub family: u16,
    pub data: [u8; 26],
    pub len: u32,
}

/// What differs from one platform to the next: the numbers that name the two
/// families in a socket address, and whether sockets know port reuse. The two
/// numbers are never the same: the family field tells the families apart.
#[derive(Clone, Copy, Debug, PartialEq, Eq, Structural)]
pub struct Platform {
    inet4: u16,
    inet6: u16,
    reuse_port: bool,
}

/// What a platform description holds, as plain values.
pub struct PlatformView {
    pub inet4: u16,
    pub inet6: u16,
    pub reuse_port: bool,
}

/// `libc::AF_INET`: the number by which the platform that the library is
/// built for names the IPv4 family. Nothing is claimed of the number.
#[verifier::external_body]
fn libc_af_inet() -> (code: i32) {
    libc::AF_INET
}

/// `libc::AF_INET6`: the number by which the platform that the library is
/// built for names the IPv6 family. Nothing is claimed of the number.
#[verifier::external_body]
fn libc_af_inet6() -> (code: i32) {
    libc::AF_INET6
}

impl RecvFlags {
    /// No flag set.
    pub fn empty() -> (flags: RecvFlags)
        ensures
            flags == (RecvFlags { oob: false, peek: false, wait_all: false }),
    {
        RecvFlags { oob: false, peek: false, wait_all: false }
    }
}

impl SendFlags {
    /// No flag set.
    pub fn empty() -> (flags: SendFlags)
        ensures
            flags == (SendFlags { oob: false, dontroute: false }),
    {
        SendFlags { oob: false, dontroute: false }
    }
}

impl SockAddr {
    /// The length the structure is declared with.
    pub fn len(&self) -> (len: u32)
        ensures
            len == self.len,
    {
        self.len
    }
}

impl PlatformView {
    /// A platform description is sound when the two families have different
    /// numbers: only then does the family field tell them apart.
    pub open spec fn wf(self) -> bool {
        self.inet4 != self.inet6
    }

    /// The number that names `family` in a socket address.
    pub open spec fn spec_family_code(self, family: AddressFamily) -> u16 {
        match family {
            AddressFamily::InetAddr => self.inet4,
            AddressFamily::Inet6Addr => self.inet6,
        }
    }
}

impl View for Platform {
    type V = PlatformView;

    closed spec fn view(&self) -> PlatformView {
        PlatformView { inet4: self.inet4, inet6: self.inet6, reuse_port: self.reuse_port }
    }
}

impl Platform {
    /// Every platform description is sound.
    #[verifier::type_invariant]
    pub open spec fn wf(self) -> bool {
        self@.wf()
    }

    /// The description with the given family numbers, or `None` where the two
    /// are the same number.
    pub fn new(inet4: u16, inet6: u16, reuse_port: bool) -> (platform: Option<Platform>)
        ensures
            platform.is_some() == (inet4 != inet6),
            platform matches Some(p) ==> p@ == (PlatformView { inet4, inet6, reuse_port }),
    {
        if inet4 != inet6 {
            Some(Platform { inet4, inet6, reuse_port })
        } else {
            None
        }
    }

    /// The description with the family numbers `inet4` and `inet6` as a
    /// platform header states them, or `None` where one of them does not fit
    /// the family field or the two are the same number.
    pub fn from_codes(inet4: i32, inet6: i32, reuse_port: bool) -> (platform: Option<Platform>)
        ensures
            platform.is_some() == (0 <= inet4 <= 0xffff && 0 <= inet6 <= 0xffff && inet4
                != inet6),
            platform matches Some(p) ==> p@ == (PlatformView {
                inet4: inet4 as u16,
                inet6: inet6 as u16,
                reuse_port,
            }),
    {
        if 0 <= inet4 && inet4 <= 0xffff && 0 <= inet6 && inet6 <= 0xffff {
            Platform::new(inet4 as u16, inet6 as u16, reuse_port)
        } else {
            None
        }
    }

    /// The platform that the library is built for, with the family numbers
    /// that its C library states and with port reuse known; `None` where
    /// those numbers make no sound description.
    pub fn host() -> (platform: Option<Platform>)
        ensures
            platform matches Some(p) ==> p@.wf() && p@.reuse_port,
    {
        Platform::from_codes(libc_af_inet(), libc_af_inet6(), true)
    }

    /// Linux: families 2 and 10, port reuse known.
    pub fn linux() -> (platform: Platform)
        ensures
            platform@ == (PlatformView { inet4: 2, inet6: 10, reuse_port: true }),
    {
        Platform { inet4: 2, inet6: 10, reuse_port: true }
    }

    /// Windows: families 2 and 23, port reuse unknown.
    pub fn windows() -> (platform: Platform)
        ensures
            platform@ == (PlatformView { inet4: 2, inet6: 23, reuse_port: false }),
    {
        Platform { inet4: 2, inet6: 23, reuse_port: false }
    }

    /// The number that names the IPv4 family.
    pub fn inet4(&self) -> (code: u16)
        ensures
            code == self@.inet4,
            code != self@.inet6,
    {
        proof {
            use_type_invariant(self);
        }
        self.inet4
    }

    /// The number that names the IPv6 family.
    pub fn inet6(&self) -> (code: u16)
        ensures
            code == self@.inet6,
            code != self@.inet4,
    {
        proof {
            use_type_invariant(self);
        }
        self.inet6
    }

    /// Whether sockets know port reuse.
    pub fn reuse_port(&self) -> (known: bool)
        ensures
            known == self@.reuse_port,
    {
        self.reuse_port
    }

    /// The number that names `family` in a socket address.
    pub fn family_code(&self, family: AddressFamily) -> (code: u16)
        ensures
            code == self@.spec_family_code(family),
    {
        match family {
            AddressFamily::InetAddr => self.inet4,
            AddressFamily::Inet6Addr => self.inet6,
        }
    }
}

} // verus!
