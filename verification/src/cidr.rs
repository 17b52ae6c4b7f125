//! Networks in CIDR notation: an address and the number of leading bits that
//! every member shares with it.

use vstd::prelude::*;
use crate::types::{Addr, AddrIp4, AddrIp6};

verus! {

/// The network mask of an IPv4 network: `prefix_len` ones from the top.
pub open spec fn spec_netmask4(prefix_len: u8) -> u32 {
    if prefix_len == 0 {
        0u32
    } else {
        0xffff_ffffu32 << ((32 - prefix_len) as u32)
    }
}

/// The host mask of an IPv4 network: ones below the top `prefix_len` bits.
pub open spec fn spec_hostmask4(prefix_len: u8) -> u32 {
    if prefix_len >= 32 {
        0u32
    } else {
        0xffff_ffffu32 >> (prefix_len as u32)
    }
}

/// Whether `ip` lies from the first to the last address of the IPv4 network
/// `net/prefix_len`, both included.
pub open spec fn spec_net4_contains(net: u32, prefix_len: u8, ip: u32) -> bool {
    (net & spec_netmask4(prefix_len)) <= ip && ip <= (net | spec_hostmask4(prefix_len))
}

/// The network mask of an IPv6 network: `prefix_len` ones from the top.
pub open spec fn spec_netmask6(prefix_len: u8) -> u128 {
    if prefix_len == 0 {
        0u128
    } else {
        0xffff_ffff_ffff_ffff_ffff_ffff_ffff_ffffu128 << ((128 - prefix_len) as u128)
    }
}

/// The host mask of an IPv6 network: ones below the top `prefix_len` bits.
pub open spec fn spec_hostmask6(prefix_len: u8) -> u128 {
    if prefix_len >= 128 {
        0u128
    } else {
        0xffff_ffff_ffff_ffff_ffff_ffff_ffff_ffffu128 >> (prefix_len as u128)
    }
}

/// Whether `ip` lies from the first to the last address of the IPv6 network
/// `net/prefix_len`, both included.
pub open spec fn spec_net6_contains(net: u128, prefix_len: u8, ip: u128) -> bool {
    (net & spec_netmask6(prefix_len)) <= ip && ip <= (net | spec_hostmask6(prefix_len))
}

/// `ipnet::Ipv4Net::new_assert`, then `ipnet::Ipv4Net::contains` with an
/// address: whether `ip` lies between the network address and the broadcast
/// address of `net/prefix_len`, both included. Addresses are given as their
/// 32-bit numbers, first octet on top. The crate computes the two bounds from
/// the masks as `spec_net4_contains` does; it panics for a prefix over 32.
#[verifier::external_body]
fn ipv4_net_contains(net: u32, prefix_len: u8, ip: u32) -> (inside: bool)
    requires
        prefix_len <= 32,
    ensures
        inside == spec_net4_contains(net, prefix_len, ip),
{
    ipnet::Ipv4Net::new_assert(net.into(), prefix_len).contains(&core::net::Ipv4Addr::from(ip))
}

/// `ipnet::Ipv6Net::new_assert`, then `ipnet::Ipv6Net::contains` with an
/// address: whether `ip` lies between the first and the last address of
/// `net/prefix_len`, both included. Addresses are given as their 128-bit
/// numbers, first group on top. The crate computes the two bounds from the
/// masks as `spec_net6_contains` does; it panics for a prefix over 128.
#[verifier::external_body]
fn ipv6_net_contains(net: u128, prefix_len: u8, ip: u128) -> (inside: bool)
    requires
        prefix_len <= 128,
    ensures
        inside == spec_net6_contains(net, prefix_len, ip),
{
    ipnet::Ipv6Net::new_assert(net.into(), prefix_len).contains(&core::net::Ipv6Addr::from(ip))
}

/// An address of one family and a prefix length: what a network is made
/// of.
#[allow(inconsistent_fields)]
#[derive(Clone, Copy, Debug, PartialEq, Eq, Structural)]
pub enum Network {
    V4 { addr: AddrIp4, prefix_len: u8 },
    V6 { addr: AddrIp6, prefix_len: u8 },
}

/// A network: an address and a prefix length that is no longer than an
/// address of its family.
#[derive(Clone, Copy, Debug, PartialEq, Eq, Structural)]
pub struct Cidr {
    net: Network,
}

impl AddrIp4 {
    /// The address as one number, `n0` in the top byte.
    pub open spec fn spec_bits(self) -> u32 {
        (self.n0 as int * 0x100_0000 + self.n1 as int * 0x1_0000 + self.h0 as int * 0x100
            + self.h1 as int) as u32
    }

    /// The address as one number, `n0` in the top byte.
    pub fn bits(&self) -> (bits: u32)
        ensures
            bits == self.spec_bits(),
    {
        let n0: u8 = self.n0;
        let n1: u8 = self.n1;
        let h0: u8 = self.h0;
        let h1: u8 = self.h1;
        let bits: u32 = ((n0 as u32) << 24) | ((n1 as u32) << 16) | ((h0 as u32) << 8) | (h1 as u32);
        assert(bits == n0 * 0x100_0000 + n1 * 0x1_0000 + h0 * 0x100 + h1) by (bit_vector)
            requires
                bits == ((n0 as u32) << 24) | ((n1 as u32) << 16) | ((h0 as u32) << 8) | (
                h1 as u32),
        ;
        bits
    }
}

impl AddrIp6 {
    /// The address as one number, `n0` in the top sixteen bits.
    pub open spec fn spec_bits(self) -> u128 {
        (((((((self.n0 as int * 0x1_0000 + self.n1 as int) * 0x1_0000 + self.n2 as int) * 0x1_0000
            + self.n3 as int) * 0x1_0000 + self.h0 as int) * 0x1_0000 + self.h1 as int) * 0x1_0000
            + self.h2 as int) * 0x1_0000 + self.h3 as int) as u128
    }

    /// The address as one number, `n0` in the top sixteen bits.
    pub fn bits(&self) -> (bits: u128)
        ensures
            bits == self.spec_bits(),
    {
        let n0: u16 = self.n0;
        let n1: u16 = self.n1;
        let n2: u16 = self.n2;
        let n3: u16 = self.n3;
        let h0: u16 = self.h0;
        let h1: u16 = self.h1;
        let h2: u16 = self.h2;
        let h3: u16 = self.h3;
        let top: u64 = ((n0 as u64) << 48) | ((n1 as u64) << 32) | ((n2 as u64) << 16) | (n3 as u64);
        let low: u64 = ((h0 as u64) << 48) | ((h1 as u64) << 32) | ((h2 as u64) << 16) | (h3 as u64);
        assert(top == ((n0 * 0x1_0000 + n1) * 0x1_0000 + n2) * 0x1_0000 + n3) by (bit_vector)
            requires
                top == ((n0 as u64) << 48) | ((n1 as u64) << 32) | ((n2 as u64) << 16) | (
                n3 as u64),
        ;
        assert(low == ((h0 * 0x1_0000 + h1) * 0x1_0000 + h2) * 0x1_0000 + h3) by (bit_vector)
            requires
                low == ((h0 as u64) << 48) | ((h1 as u64) << 32) | ((h2 as u64) << 16) | (
                h3 as u64),
        ;
        let bits: u128 = ((top as u128) << 64) | (low as u128);
        assert(bits == top * 0x1_0000_0000_0000_0000 + low) by (bit_vector)
            requires
                bits == ((top as u128) << 64) | (low as u128),
        ;
        bits
    }
}

impl Network {
    /// A prefix is sound when it is no longer than an address of its family.
    pub open spec fn wf(self) -> bool {
        match self {
            Network::V4 { addr, prefix_len } => prefix_len <= 32,
            Network::V6 { addr, prefix_len } => prefix_len <= 128,
        }
    }

    /// Whether the address of `addr` lies in the network; the port plays no
    /// part, and an address of the other family never does.
    pub open spec fn spec_contains(self, addr: Addr) -> bool {
        match (self, addr) {
            (Network::V4 { addr: net, prefix_len }, Addr::Ip4(a)) => spec_net4_contains(
                net.spec_bits(),
                prefix_len,
                a.addr.spec_bits(),
            ),
            (Network::V6 { addr: net, prefix_len }, Addr::Ip6(a)) => spec_net6_contains(
                net.spec_bits(),
                prefix_len,
                a.addr.spec_bits(),
            ),
            _ => false,
        }
    }
}

impl View for Cidr {
    type V = Network;

    closed spec fn view(&self) -> Network {
        self.net
    }
}

impl Cidr {
    #[verifier::type_invariant]
    spec fn sound(self) -> bool {
        self.net.wf()
    }

    /// Whether the address of `addr` lies in the network.
    pub open spec fn spec_contains(self, addr: Addr) -> bool {
        self@.spec_contains(addr)
    }

    /// The IPv4 network `addr/prefix_len`, or `None` for a prefix over 32.
    pub fn new_v4(addr: AddrIp4, prefix_len: u8) -> (cidr: Option<Cidr>)
        ensures
            cidr.is_some() == (prefix_len <= 32),
            cidr matches Some(c) ==> c@ == (Network::V4 { addr, prefix_len }),
    {
        if prefix_len <= 32 {
            Some(Cidr { net: Network::V4 { addr, prefix_len } })
        } else {
            None
        }
    }

    /// The IPv6 network `addr/prefix_len`, or `None` for a prefix over 128.
    pub fn new_v6(addr: AddrIp6, prefix_len: u8) -> (cidr: Option<Cidr>)
        ensures
            cidr.is_some() == (prefix_len <= 128),
            cidr matches Some(c) ==> c@ == (Network::V6 { addr, prefix_len }),
    {
        if prefix_len <= 128 {
            Some(Cidr { net: Network::V6 { addr, prefix_len } })
        } else {
            None
        }
    }

    /// The address and prefix length the network was made with.
    pub fn network(&self) -> (net: Network)
        ensures
            net == self@,
            net.wf(),
    {
        proof {
            use_type_invariant(self);
        }
        self.net
    }

    /// Whether the address of `addr` lies in the network.
    pub fn contains(&self, addr: &Addr) -> (inside: bool)
        ensures
            inside == self.spec_contains(*addr),
    {
        proof {
            use_type_invariant(self);
        }
        match &self.net {
            Network::V4 { addr: net, prefix_len } => match addr {
                Addr::Ip4(a) => ipv4_net_contains(net.bits(), *prefix_len, a.addr.bits()),
                Addr::Ip6(_) => false,
            },
            Network::V6 { addr: net, prefix_len } => match addr {
                Addr::Ip4(_) => false,
                Addr::Ip6(a) => ipv6_net_contains(net.bits(), *prefix_len, a.addr.bits()),
            },
        }
    }
}

/// An address lies in an IPv4 network exactly when it agrees with the
/// network's address on the bits that the network mask keeps.
pub proof fn lemma_net4_contains_is_prefix_match(net: u32, prefix_len: u8, ip: u32)
    requires
        prefix_len <= 32,
    ensures
        spec_net4_contains(net, prefix_len, ip) <==> (ip & spec_netmask4(prefix_len)) == (net
            & spec_netmask4(prefix_len)),
{
    let p = prefix_len;
    assert(((net & (if p == 0 {
        0u32
    } else {
        0xffff_ffffu32 << ((32 - p) as u32)
    })) <= ip && ip <= (net | (if p >= 32 {
        0u32
    } else {
        0xffff_ffffu32 >> (p as u32)
    }))) <==> ((ip & (if p == 0 {
        0u32
    } else {
        0xffff_ffffu32 << ((32 - p) as u32)
    })) == (net & (if p == 0 {
        0u32
    } else {
        0xffff_ffffu32 << ((32 - p) as u32)
    })))) by (bit_vector)
        requires
            p <= 32,
    ;
}

/// An address lies in an IPv6 network exactly when it agrees with the
/// network's address on the bits that the network mask keeps.
pub proof fn lemma_net6_contains_is_prefix_match(net: u128, prefix_len: u8, ip: u128)
    requires
        prefix_len <= 128,
    ensures
        spec_net6_contains(net, prefix_len, ip) <==> (ip & spec_netmask6(prefix_len)) == (net
            & spec_netmask6(prefix_len)),
{
    let p = prefix_len;
    assert(((net & (if p == 0 {
        0u128
    } else {
        0xffff_ffff_ffff_ffff_ffff_ffff_ffff_ffffu128 << ((128 - p) as u128)
    })) <= ip && ip <= (net | (if p >= 128 {
        0u128
    } else {
        0xffff_ffff_ffff_ffff_ffff_ffff_ffff_ffffu128 >> (p as u128)
    }))) <==> ((ip & (if p == 0 {
        0u128
    } else {
        0xffff_ffff_ffff_ffff_ffff_ffff_ffff_ffffu128 << ((128 - p) as u128)
    })) == (net & (if p == 0 {
        0u128
    } else {
        0xffff_ffff_ffff_ffff_ffff_ffff_ffff_ffffu128 << ((128 - p) as u128)
    })))) by (bit_vector)
        requires
            p <= 128,
    ;
}

/// In a network of prefix length 24 lie exactly the addresses that share its
/// first three octets.
pub proof fn lemma_slash_24(net: AddrIp4, ip: AddrIp4)
    ensures
        spec_net4_contains(net.spec_bits(), 24, ip.spec_bits()) <==> (ip.n0 == net.n0 && ip.n1
            == net.n1 && ip.h0 == net.h0),
{
    let a0 = net.n0;
    let a1 = net.n1;
    let a2 = net.h0;
    let a3 = net.h1;
    let b0 = ip.n0;
    let b1 = ip.n1;
    let b2 = ip.h0;
    let b3 = ip.h1;
    let n: u32 = net.spec_bits();
    let i: u32 = ip.spec_bits();
    assert(n == a0 * 0x100_0000 + a1 * 0x1_0000 + a2 * 0x100 + a3);
    assert(i == b0 * 0x100_0000 + b1 * 0x1_0000 + b2 * 0x100 + b3);
    assert(((n & (0xffff_ffffu32 << 8u32)) <= i && i <= (n | (0xffff_ffffu32 >> 24u32))) <==> (b0
        == a0 && b1 == a1 && b2 == a2)) by (bit_vector)
        requires
            n == a0 * 0x100_0000 + a1 * 0x1_0000 + a2 * 0x100 + a3,
            i == b0 * 0x100_0000 + b1 * 0x1_0000 + b2 * 0x100 + b3,
    ;
}

} // verus!
