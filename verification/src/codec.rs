//! Conversion between the guest's addresses and flags and the platform's.
//!
//! A socket address is written and read byte by byte: the port and every
//! address group travel most significant byte first, whatever the host's own
//! byte order.

use vstd::prelude::*;
use crate::native;
use crate::native::{
    In6Addr, InAddr, Platform, PlatformView, RecvFlags, ShutdownMode, SockAddr,
};
use crate::types::{
    Addr, AddrIp4, AddrIp4Port, AddrIp6, AddrIp6Port, AddressFamily, Errno, Riflags, Sdflags,
    SockType, RIFLAGS_RECV_PEEK, RIFLAGS_RECV_WAITALL, SDFLAGS_RD, SDFLAGS_WR,
};

verus! {

/// The more significant byte of a 16-bit number.
pub open spec fn hi(x: u16) -> u8 {
    (x / 256) as u8
}

/// The less significant byte of a 16-bit number.
pub open spec fn lo(x: u16) -> u8 {
    (x % 256) as u8
}

/// The 16-bit number with the given bytes.
pub open spec fn join(hi: u8, lo: u8) -> u16 {
    (hi as int * 256 + lo as int) as u16
}

/// Splitting a number into its two bytes and joining them gives the number back.
pub proof fn lemma_join_split(x: u16)
    ensures
        join(hi(x), lo(x)) == x,
{
}

/// Joining two bytes and splitting the number gives the bytes back.
pub proof fn lemma_split_join(h: u8, l: u8)
    ensures
        hi(join(h, l)) == h,
        lo(join(h, l)) == l,
{
}

/// What a socket address holds, as mathematics: the family number, the
/// bytes behind it and the declared length.
pub struct SockAddrView {
    pub family: u16,
    pub data: Seq<u8>,
    pub len: u32,
}

impl View for SockAddr {
    type V = SockAddrView;

    open spec fn view(&self) -> SockAddrView {
        SockAddrView { family: self.family, data: self.data@, len: self.len }
    }
}

/// The group of an IPv6 address at position `k`, counted from the most
/// significant.
pub open spec fn spec_group(a: AddrIp6, k: int) -> u16 {
    if k == 0 {
        a.n0
    } else if k == 1 {
        a.n1
    } else if k == 2 {
        a.n2
    } else if k == 3 {
        a.n3
    } else if k == 4 {
        a.h0
    } else if k == 5 {
        a.h1
    } else if k == 6 {
        a.h2
    } else {
        a.h3
    }
}

/// The four bytes of an IPv4 address in network order.
pub open spec fn spec_in_addr(a: AddrIp4) -> Seq<u8> {
    seq![a.n0, a.n1, a.h0, a.h1]
}

/// The sixteen bytes of an IPv6 address in network order: each group's more
/// significant byte before its less significant one.
pub open spec fn spec_in6_addr(a: AddrIp6) -> Seq<u8> {
    Seq::new(
        16,
        |i: int|
            if i % 2 == 0 {
                hi(spec_group(a, i / 2))
            } else {
                lo(spec_group(a, i / 2))
            },
    )
}

/// The IPv4 address that four bytes in network order stand for.
pub open spec fn spec_addr_ip4(s: Seq<u8>) -> AddrIp4 {
    AddrIp4 { n0: s[0], n1: s[1], h0: s[2], h1: s[3] }
}

/// The IPv6 address that sixteen bytes in network order stand for.
pub open spec fn spec_addr_ip6(s: Seq<u8>) -> AddrIp6 {
    AddrIp6 {
        n0: join(s[0], s[1]),
        n1: join(s[2], s[3]),
        n2: join(s[4], s[5]),
        n3: join(s[6], s[7]),
        h0: join(s[8], s[9]),
        h1: join(s[10], s[11]),
        h2: join(s[12], s[13]),
        h3: join(s[14], s[15]),
    }
}

/// The bytes behind the family field of an IPv4 socket address: port, address,
/// and zeroes to the end.
pub open spec fn spec_data_ip4(a: AddrIp4Port) -> Seq<u8> {
    Seq::new(
        26,
        |i: int|
            if i == 0 {
                hi(a.port)
            } else if i == 1 {
                lo(a.port)
            } else if 2 <= i < 6 {
                spec_in_addr(a.addr)[i - 2]
            } else {
                0u8
            },
    )
}

/// The bytes behind the family field of an IPv6 socket address: port, a zero
/// flow label, address, and a zero scope.
pub open spec fn spec_data_ip6(a: AddrIp6Port) -> Seq<u8> {
    Seq::new(
        26,
        |i: int|
            if i == 0 {
                hi(a.port)
            } else if i == 1 {
                lo(a.port)
            } else if 6 <= i < 22 {
                spec_in6_addr(a.addr)[i - 6]
            } else {
                0u8
            },
    )
}

/// The socket address that stands for `addr` on `platform`, declared with
/// the length of its family's structure.
pub open spec fn spec_to_native(addr: Addr, platform: PlatformView) -> SockAddrView {
    match addr {
        Addr::Ip4(a) => SockAddrView {
            family: platform.inet4,
            data: spec_data_ip4(a),
            len: native::SOCKADDR_IN_LEN,
        },
        Addr::Ip6(a) => SockAddrView {
            family: platform.inet6,
            data: spec_data_ip6(a),
            len: native::SOCKADDR_IN6_LEN,
        },
    }
}

/// The address that a socket address stands for on `platform`: the family
/// field chooses how the bytes are read, and any family but the two is
/// refused as an invalid argument.
pub open spec fn spec_from_native(sa: SockAddrView, platform: PlatformView) -> Result<Addr, Errno> {
    if sa.family == platform.inet4 {
        Ok(
            Addr::Ip4(
                AddrIp4Port {
                    addr: spec_addr_ip4(sa.data.subrange(2, 6)),
                    port: join(sa.data[0], sa.data[1]),
                },
            ),
        )
    } else if sa.family == platform.inet6 {
        Ok(
            Addr::Ip6(
                AddrIp6Port {
                    addr: spec_addr_ip6(sa.data.subrange(6, 22)),
                    port: join(sa.data[0], sa.data[1]),
                },
            ),
        )
    } else {
        Err(Errno::Inval)
    }
}

/// The native receive flags that stand for the guest's: peek and wait-all
/// carry over, out-of-band is never asked for.
pub open spec fn spec_recv_flags(flags: Riflags) -> RecvFlags {
    RecvFlags {
        oob: false,
        peek: flags.spec_has(RIFLAGS_RECV_PEEK),
        wait_all: flags.spec_has(RIFLAGS_RECV_WAITALL),
    }
}

/// The native shutdown mode that stands for the guest's flags; with neither
/// direction set there is none, and the flags are refused.
pub open spec fn spec_shutdown_mode(flags: Sdflags) -> Result<ShutdownMode, Errno> {
    if flags.spec_has(SDFLAGS_RD) && flags.spec_has(SDFLAGS_WR) {
        Ok(ShutdownMode::Both)
    } else if flags.spec_has(SDFLAGS_RD) {
        Ok(ShutdownMode::Read)
    } else if flags.spec_has(SDFLAGS_WR) {
        Ok(ShutdownMode::Write)
    } else {
        Err(Errno::Inval)
    }
}

/// The more significant byte of `x`.
pub(crate) fn high_byte(x: u16) -> (b: u8)
    ensures
        b == hi(x),
{
    let b: u8 = (x >> 8) as u8;
    assert(b == (x / 256) as u8) by (bit_vector)
        requires
            b == (x >> 8) as u8,
    ;
    b
}

/// The less significant byte of `x`.
pub(crate) fn low_byte(x: u16) -> (b: u8)
    ensures
        b == lo(x),
{
    let b: u8 = (x & 0xff) as u8;
    assert(b == (x % 256) as u8) by (bit_vector)
        requires
            b == (x & 0xff) as u8,
    ;
    b
}

/// The number whose more significant byte is `h` and whose less significant
/// byte is `l`.
pub(crate) fn join_bytes(h: u8, l: u8) -> (x: u16)
    ensures
        x == join(h, l),
{
    let x: u16 = ((h as u16) << 8) | ((0xff & l) as u16);
    assert(x == h * 256 + l) by (bit_vector)
        requires
            x == ((h as u16) << 8) | ((0xff & l) as u16),
    ;
    x
}

impl native::AddressFamily {
    /// The native family of a guest family.
    pub open spec fn spec_from(af: AddressFamily) -> native::AddressFamily {
        match af {
            AddressFamily::Inet4 => native::AddressFamily::InetAddr,
            AddressFamily::Inet6 => native::AddressFamily::Inet6Addr,
        }
    }

    /// The native family of a guest family.
    pub fn from(af: AddressFamily) -> (family: native::AddressFamily)
        ensures
            family == Self::spec_from(af),
    {
        match af {
            AddressFamily::Inet4 => native::AddressFamily::InetAddr,
            AddressFamily::Inet6 => native::AddressFamily::Inet6Addr,
        }
    }
}

impl native::SockType {
    /// The native socket type of a guest socket type.
    pub open spec fn spec_from(t: SockType) -> native::SockType {
        match t {
            SockType::SocketStream => native::SockType::Stream,
            SockType::SocketDgram => native::SockType::Datagram,
        }
    }

    /// The native socket type of a guest socket type.
    pub fn from(t: SockType) -> (socket_type: native::SockType)
        ensures
            socket_type == Self::spec_from(t),
    {
        match t {
            SockType::SocketStream => native::SockType::Stream,
            SockType::SocketDgram => native::SockType::Datagram,
        }
    }
}

impl InAddr {
    /// The address in network order: the octets in the order they are
    /// written, `n0` first.
    pub fn from(addr: &AddrIp4) -> (native: InAddr)
        ensures
            native.s_addr@ == spec_in_addr(*addr),
    {
        let n0: u8 = addr.n0;
        let n1: u8 = addr.n1;
        let h0: u8 = addr.h0;
        let h1: u8 = addr.h1;
        let ip: u32 = ((n0 as u32) << 24) | ((n1 as u32) << 16) | ((h0 as u32) << 8) | (h1 as u32);
        let b0: u8 = (ip >> 24) as u8;
        let b1: u8 = ((ip >> 16) & 0xff) as u8;
        let b2: u8 = ((ip >> 8) & 0xff) as u8;
        let b3: u8 = (ip & 0xff) as u8;
        assert(b0 == n0 && b1 == n1 && b2 == h0 && b3 == h1) by (bit_vector)
            requires
                ip == ((n0 as u32) << 24) | ((n1 as u32) << 16) | ((h0 as u32) << 8) | (h1 as u32),
                b0 == (ip >> 24) as u8,
                b1 == ((ip >> 16) & 0xff) as u8,
                b2 == ((ip >> 8) & 0xff) as u8,
                b3 == (ip & 0xff) as u8,
        ;
        let native = InAddr { s_addr: [b0, b1, b2, b3] };
        assert(native.s_addr@ =~= spec_in_addr(*addr));
        native
    }
}

impl AddrIp4 {
    /// The address that four bytes in network order stand for.
    pub fn from(addr: InAddr) -> (wire: AddrIp4)
        ensures
            wire == spec_addr_ip4(addr.s_addr@),
    {
        let s0: u8 = addr.s_addr[0];
        let s1: u8 = addr.s_addr[1];
        let s2: u8 = addr.s_addr[2];
        let s3: u8 = addr.s_addr[3];
        let ip: u32 = ((s0 as u32) << 24) | ((s1 as u32) << 16) | ((s2 as u32) << 8) | (s3 as u32);
        let n0: u8 = (ip >> 24) as u8;
        let n1: u8 = ((ip >> 16) & 0xff) as u8;
        let h0: u8 = ((ip >> 8) & 0xff) as u8;
        let h1: u8 = (ip & 0xff) as u8;
        assert(n0 == s0 && n1 == s1 && h0 == s2 && h1 == s3) by (bit_vector)
            requires
                ip == ((s0 as u32) << 24) | ((s1 as u32) << 16) | ((s2 as u32) << 8) | (s3 as u32),
                n0 == (ip >> 24) as u8,
                n1 == ((ip >> 16) & 0xff) as u8,
                h0 == ((ip >> 8) & 0xff) as u8,
                h1 == (ip & 0xff) as u8,
        ;
        AddrIp4 { n0, n1, h0, h1 }
    }
}

impl AddrIp6 {
    /// The address that sixteen bytes in network order stand for.
    pub fn from(addr: In6Addr) -> (wire: AddrIp6)
        ensures
            wire == spec_addr_ip6(addr.s6_addr@),
    {
        AddrIp6 {
            n0: join_bytes(addr.s6_addr[0], addr.s6_addr[1]),
            n1: join_bytes(addr.s6_addr[2], addr.s6_addr[3]),
            n2: join_bytes(addr.s6_addr[4], addr.s6_addr[5]),
            n3: join_bytes(addr.s6_addr[6], addr.s6_addr[7]),
            h0: join_bytes(addr.s6_addr[8], addr.s6_addr[9]),
            h1: join_bytes(addr.s6_addr[10], addr.s6_addr[11]),
            h2: join_bytes(addr.s6_addr[12], addr.s6_addr[13]),
            h3: join_bytes(addr.s6_addr[14], addr.s6_addr[15]),
        }
    }
}

impl In6Addr {
    /// The address in network order: of each group the more significant byte
    /// first.
    pub fn from(addr: &AddrIp6) -> (native: In6Addr)
        ensures
            native.s6_addr@ == spec_in6_addr(*addr),
    {
        let native = In6Addr {
            s6_addr: [
                high_byte(addr.n0),
                low_byte(addr.n0),
                high_byte(addr.n1),
                low_byte(addr.n1),
                high_byte(addr.n2),
                low_byte(addr.n2),
                high_byte(addr.n3),
                low_byte(addr.n3),
                high_byte(addr.h0),
                low_byte(addr.h0),
                high_byte(addr.h1),
                low_byte(addr.h1),
                high_byte(addr.h2),
                low_byte(addr.h2),
                high_byte(addr.h3),
                low_byte(addr.h3),
            ],
        };
        assert(native.s6_addr@ =~= spec_in6_addr(*addr));
        native
    }
}

impl SockAddr {
    /// The socket address that stands for `t` on `platform`: the family number
    /// of the address's variant, the port in network order, the address bytes,
    /// zero everywhere else, and the length of the family's structure.
    pub fn from(t: &Addr, platform: &Platform) -> (sa: SockAddr)
        ensures
            sa@ == spec_to_native(*t, platform@),
            spec_from_native(sa@, platform@) == Ok::<Addr, Errno>(*t),
    {
        proof {
            use_type_invariant(platform);
            lemma_codec_round_trip(*t, platform@);
        }
        match t {
            Addr::Ip4(addr) => {
                let mut data: [u8; 26] = [0u8; 26];
                data[0] = high_byte(addr.port);
                data[1] = low_byte(addr.port);
                let ip = InAddr::from(&addr.addr);
                let mut i: usize = 0;
                while i < 4
                    invariant
                        i <= 4,
                        ip.s_addr@ == spec_in_addr(addr.addr),
                        data@.len() == 26,
                        data@[0] == hi(addr.port),
                        data@[1] == lo(addr.port),
                        forall|j: int| 2 <= j < 2 + i ==> data@[j] == ip.s_addr@[j - 2],
                        forall|j: int| 2 + i <= j < 26 ==> data@[j] == 0,
                    decreases 4 - i,
                {
                    data[2 + i] = ip.s_addr[i];
                    i = i + 1;
                }
                let sa = SockAddr {
                    family: platform.family_code(native::AddressFamily::InetAddr),
                    data,
                    len: native::SOCKADDR_IN_LEN,
                };
                assert(sa.data@ =~= spec_data_ip4(*addr));
                sa
            },
            Addr::Ip6(addr) => {
                let mut data: [u8; 26] = [0u8; 26];
                data[0] = high_byte(addr.port);
                data[1] = low_byte(addr.port);
                let ip = In6Addr::from(&addr.addr);
                let mut i: usize = 0;
                while i < 16
                    invariant
                        i <= 16,
                        ip.s6_addr@ == spec_in6_addr(addr.addr),
                        data@.len() == 26,
                        data@[0] == hi(addr.port),
                        data@[1] == lo(addr.port),
                        forall|j: int| 2 <= j < 6 ==> data@[j] == 0,
                        forall|j: int| 6 <= j < 6 + i ==> data@[j] == ip.s6_addr@[j - 6],
                        forall|j: int| 6 + i <= j < 26 ==> data@[j] == 0,
                    decreases 16 - i,
                {
                    data[6 + i] = ip.s6_addr[i];
                    i = i + 1;
                }
                let sa = SockAddr {
                    family: platform.family_code(native::AddressFamily::Inet6Addr),
                    data,
                    len: native::SOCKADDR_IN6_LEN,
                };
                assert(sa.data@ =~= spec_data_ip6(*addr));
                sa
            },
        }
    }
}

impl Addr {
    /// The address that `t` stands for on `platform`. The family field
    /// decides how the bytes are read; a socket address of any other family
    /// is an invalid argument.
    pub fn try_from(t: &SockAddr, platform: &Platform) -> (addr: Result<Addr, Errno>)
        ensures
            addr == spec_from_native(t@, platform@),
    {
        if t.family == platform.family_code(native::AddressFamily::InetAddr) {
            let sin_addr = InAddr { s_addr: [t.data[2], t.data[3], t.data[4], t.data[5]] };
            assert(sin_addr.s_addr@ =~= t.data@.subrange(2, 6));
            Ok(
                Addr::Ip4(
                    AddrIp4Port {
                        addr: AddrIp4::from(sin_addr),
                        port: join_bytes(t.data[0], t.data[1]),
                    },
                ),
            )
        } else if t.family == platform.family_code(native::AddressFamily::Inet6Addr) {
            let mut s6_addr: [u8; 16] = [0u8; 16];
            let mut i: usize = 0;
            while i < 16
                invariant
                    i <= 16,
                    s6_addr@.len() == 16,
                    t.data@.len() == 26,
                    forall|j: int| 0 <= j < i ==> s6_addr@[j] == t.data@[j + 6],
                decreases 16 - i,
            {
                s6_addr[i] = t.data[6 + i];
                i = i + 1;
            }
            let sin6_addr = In6Addr { s6_addr };
            assert(sin6_addr.s6_addr@ =~= t.data@.subrange(6, 22));
            Ok(
                Addr::Ip6(
                    AddrIp6Port {
                        addr: AddrIp6::from(sin6_addr),
                        port: join_bytes(t.data[0], t.data[1]),
                    },
                ),
            )
        } else {
            Err(Errno::Inval)
        }
    }
}

impl RecvFlags {
    /// The native receive flags that stand for the guest's.
    pub fn from(flags: Riflags) -> (out: RecvFlags)
        ensures
            out == spec_recv_flags(flags),
    {
        let mut out = RecvFlags::empty();
        if flags.has(RIFLAGS_RECV_PEEK) {
            out.peek = true;
        }
        if flags.has(RIFLAGS_RECV_WAITALL) {
            out.wait_all = true;
        }
        out
    }
}

impl ShutdownMode {
    /// The native shutdown mode that stands for the guest's flags: both
    /// directions, one of them, or a refusal where neither is set.
    pub fn try_from(flags: Sdflags) -> (mode: Result<ShutdownMode, Errno>)
        ensures
            mode == spec_shutdown_mode(flags),
    {
        if flags.has(SDFLAGS_RD) && flags.has(SDFLAGS_WR) {
            Ok(ShutdownMode::Both)
        } else if flags.has(SDFLAGS_RD) {
            Ok(ShutdownMode::Read)
        } else if flags.has(SDFLAGS_WR) {
            Ok(ShutdownMode::Write)
        } else {
            Err(Errno::Inval)
        }
    }
}

/// Writing an address as a socket address and reading it back gives the
/// address again, for either family, every octet, every group and every port.
pub proof fn lemma_codec_round_trip(addr: Addr, platform: PlatformView)
    requires
        platform.wf(),
    ensures
        spec_from_native(spec_to_native(addr, platform), platform) == Ok::<Addr, Errno>(addr),
{
    let sa = spec_to_native(addr, platform);
    match addr {
        Addr::Ip4(a) => {
            lemma_join_split(a.port);
            assert(spec_addr_ip4(sa.data.subrange(2, 6)) == a.addr);
        },
        Addr::Ip6(a) => {
            lemma_join_split(a.port);
            lemma_join_split(a.addr.n0);
            lemma_join_split(a.addr.n1);
            lemma_join_split(a.addr.n2);
            lemma_join_split(a.addr.n3);
            lemma_join_split(a.addr.h0);
            lemma_join_split(a.addr.h1);
            lemma_join_split(a.addr.h2);
            lemma_join_split(a.addr.h3);
            let s = sa.data.subrange(6, 22);
            assert(s =~= spec_in6_addr(a.addr));
            assert(spec_addr_ip6(s) == a.addr);
        },
    }
}

} // verus!
