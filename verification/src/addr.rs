//! Address pools: the allow-lists of endpoints that a socket may name.

use vstd::prelude::*;
use crate::cidr::Cidr;
use crate::rights::{HandleRights, Rights};
use crate::types::{Addr, AddressFamily, Errno, Filetype};

verus! {

/// Whether an address can be used with a socket of some family.
pub trait AddressFamilyCompatible {
    /// Whether `addr` belongs to this family.
    spec fn spec_accepts(&self, addr: Addr) -> bool;

    /// Whether `addr` belongs to this family.
    fn accepts(&self, addr: &Addr) -> (compatible: bool)
        ensures
            compatible == self.spec_accepts(*addr),
    ;
}

impl AddressFamilyCompatible for AddressFamily {
    open spec fn spec_accepts(&self, addr: Addr) -> bool {
        addr.spec_family() == *self
    }

    fn accepts(&self, addr: &Addr) -> (compatible: bool) {
        match self {
            AddressFamily::Inet4 => {
                match addr {
                    Addr::Ip6(_) => false,
                    _ => true,
                }
            },
            AddressFamily::Inet6 => {
                match addr {
                    Addr::Ip4(_) => false,
                    _ => true,
                }
            },
        }
    }
}

/// What every address pool answers: which endpoints it grants.
pub trait AddressPool {
    /// Whether the pool grants `addr`.
    spec fn spec_contains(&self, addr: Addr) -> bool;

    /// Whether the pool grants `addr`. A pool always has an answer.
    fn addr_pool_contains(&self, addr: &Addr) -> (granted: Result<bool, Errno>)
        ensures
            granted == Ok::<bool, Errno>(self.spec_contains(*addr)),
    ;
}

/// A half-open range of ports: from `start`, up to and without `end`.
#[derive(Clone, Copy, Debug, PartialEq, Eq, Structural)]
pub struct PortRange {
    pub start: u16,
    pub end: u16,
}

/// A pool that grants the endpoints of a list, each an exact address and
/// port.
#[derive(Debug)]
pub struct FixedAddressPool {
    rights: HandleRights,
    addrs: Vec<Addr>,
}

/// A pool that grants every address of a network on every port of a range.
#[derive(Clone, Copy, Debug)]
pub struct RangedAddressPool {
    rights: HandleRights,
    cidr: Cidr,
    ports: PortRange,
}

/// The rights every address pool starts with.
pub open spec fn spec_pool_rights() -> HandleRights {
    HandleRights {
        base: Rights { bits: crate::rights::RIGHTS_ADDRESS_POOL_ALL },
        inheriting: Rights { bits: crate::rights::RIGHTS_SOCKET_ALL },
    }
}

impl PortRange {
    /// Whether `port` lies in the range.
    pub open spec fn spec_contains(self, port: u16) -> bool {
        self.start <= port < self.end
    }

    /// Whether `port` lies in the range.
    pub fn contains(&self, port: u16) -> (inside: bool)
        ensures
            inside == self.spec_contains(port),
    {
        self.start <= port && port < self.end
    }
}

/// A copy of a list of addresses.
fn copy_addrs(addrs: &Vec<Addr>) -> (copy: Vec<Addr>)
    ensures
        copy@ == addrs@,
{
    let mut copy: Vec<Addr> = Vec::new();
    let mut i: usize = 0;
    while i < addrs.len()
        invariant
            i <= addrs.len(),
            copy@ == addrs@.take(i as int),
        decreases addrs.len() - i,
    {
        copy.push(addrs[i]);
        i = i + 1;
        assert(copy@ =~= addrs@.take(i as int));
    }
    assert(addrs@.take(addrs.len() as int) =~= addrs@);
    copy
}

impl FixedAddressPool {
    /// The endpoints the pool grants, in the order they were given.
    pub closed spec fn spec_addrs(&self) -> Seq<Addr> {
        self.addrs@
    }

    /// The rights the pool carries.
    pub closed spec fn spec_rights(&self) -> HandleRights {
        self.rights
    }

    /// The pool that grants `addr` and nothing else.
    pub fn new(addr: Addr) -> (pool: FixedAddressPool)
        ensures
            pool.spec_addrs() == seq![addr],
            pool.spec_rights() == spec_pool_rights(),
    {
        let mut addrs: Vec<Addr> = Vec::new();
        addrs.push(addr);
        assert(addrs@ =~= seq![addr]);
        FixedAddressPool {
            rights: HandleRights::new(
                Rights::address_pool_base(),
                Rights::address_pool_inheriting(),
            ),
            addrs,
        }
    }

    /// The pool that grants the endpoints of `addrs` and nothing else.
    pub fn from_addrs(addrs: Vec<Addr>) -> (pool: FixedAddressPool)
        ensures
            pool.spec_addrs() == addrs@,
            pool.spec_rights() == spec_pool_rights(),
    {
        FixedAddressPool {
            rights: HandleRights::new(
                Rights::address_pool_base(),
                Rights::address_pool_inheriting(),
            ),
            addrs,
        }
    }

    /// A second pool with the same endpoints and the same rights.
    pub fn copy(&self) -> (pool: FixedAddressPool)
        ensures
            pool.spec_addrs() == self.spec_addrs(),
            pool.spec_rights() == self.spec_rights(),
    {
        let addrs = copy_addrs(&self.addrs);
        let rights = self.rights;
        FixedAddressPool { rights, addrs }
    }

    /// A second pool with the same endpoints and the same rights. A pool
    /// holds no native resource, so this never fails.
    pub fn try_clone(&self) -> (copy: Result<FixedAddressPool, Errno>)
        ensures
            copy matches Ok(pool) && pool.spec_addrs() == self.spec_addrs() && pool.spec_rights()
                == self.spec_rights(),
    {
        Ok(self.copy())
    }

    /// The resource kind: an address pool.
    pub fn get_file_type(&self) -> (kind: Filetype)
        ensures
            kind == Filetype::AddressPool,
    {
        Filetype::AddressPool
    }

    /// The rights the pool carries.
    pub fn get_rights(&self) -> (rights: HandleRights)
        ensures
            rights == self.spec_rights(),
    {
        self.rights
    }

    /// Gives the pool the rights `new_rights`; the endpoints stay.
    pub fn set_rights(&mut self, new_rights: HandleRights)
        ensures
            final(self).spec_rights() == new_rights,
            final(self).spec_addrs() == old(self).spec_addrs(),
    {
        self.rights = new_rights;
    }

    /// A pool is no directory.
    pub fn is_directory(&self) -> (answer: bool)
        ensures
            !answer,
    {
        false
    }

    /// A pool is no terminal.
    pub fn is_tty(&self) -> (answer: bool)
        ensures
            !answer,
    {
        false
    }

    /// A pool has no descriptor flags: asking for them is a bad-descriptor
    /// error.
    pub fn fdstat_get(&self) -> (flags: Result<u16, Errno>)
        ensures
            flags == Err::<u16, Errno>(Errno::Badf),
    {
        Err(Errno::Badf)
    }

    /// The addresses of `resolved` that the pool grants, in their order; a
    /// failed resolution is handed on as it is.
    pub fn addr_pool_resolve(&self, resolved: Result<Vec<Addr>, Errno>) -> (granted: Result<
        Vec<Addr>,
        Errno,
    >)
        ensures
            granted.is_ok() == resolved.is_ok(),
            resolved matches Err(e) ==> granted == Err::<Vec<Addr>, Errno>(e),
            resolved matches Ok(all) ==> granted.unwrap()@ == spec_granted(*self, all@),
    {
        addr_pool_resolve(self, resolved)
    }
}

impl AddressPool for FixedAddressPool {
    open spec fn spec_contains(&self, addr: Addr) -> bool {
        self.spec_addrs().contains(addr)
    }

    fn addr_pool_contains(&self, addr: &Addr) -> (granted: Result<bool, Errno>) {
        let mut i: usize = 0;
        while i < self.addrs.len()
            invariant
                i <= self.addrs.len(),
                forall|j: int| 0 <= j < i ==> self.addrs@[j] != *addr,
            decreases self.addrs.len() - i,
        {
            if self.addrs[i] == *addr {
                return Ok(true);
            }
            i = i + 1;
        }
        Ok(false)
    }
}

impl RangedAddressPool {
    /// The network whose addresses the pool grants.
    pub closed spec fn spec_cidr(&self) -> Cidr {
        self.cidr
    }

    /// The ports the pool grants.
    pub closed spec fn spec_ports(&self) -> PortRange {
        self.ports
    }

    /// The rights the pool carries.
    pub closed spec fn spec_rights(&self) -> HandleRights {
        self.rights
    }

    /// The pool that grants the addresses of `cidr` on the ports of `ports`.
    pub fn new(cidr: Cidr, ports: PortRange) -> (pool: RangedAddressPool)
        ensures
            pool.spec_cidr() == cidr,
            pool.spec_ports() == ports,
            pool.spec_rights() == spec_pool_rights(),
    {
        RangedAddressPool {
            rights: HandleRights::new(
                Rights::address_pool_base(),
                Rights::address_pool_inheriting(),
            ),
            cidr,
            ports,
        }
    }

    /// A second pool with the same network, ports and rights.
    pub fn try_clone(&self) -> (copy: Result<RangedAddressPool, Errno>)
        ensures
            copy matches Ok(pool) && pool.spec_cidr() == self.spec_cidr() && pool.spec_ports()
                == self.spec_ports() && pool.spec_rights() == self.spec_rights(),
    {
        let cidr = self.cidr;
        let ports = self.ports;
        let rights = self.rights;
        Ok(RangedAddressPool { rights, cidr, ports })
    }

    /// The resource kind: an address pool.
    pub fn get_file_type(&self) -> (kind: Filetype)
        ensures
            kind == Filetype::AddressPool,
    {
        Filetype::AddressPool
    }

    /// The rights the pool carries.
    pub fn get_rights(&self) -> (rights: HandleRights)
        ensures
            rights == self.spec_rights(),
    {
        self.rights
    }

    /// Gives the pool the rights `new_rights`; network and ports stay.
    pub fn set_rights(&mut self, new_rights: HandleRights)
        ensures
            final(self).spec_rights() == new_rights,
            final(self).spec_cidr() == old(self).spec_cidr(),
            final(self).spec_ports() == old(self).spec_ports(),
    {
        self.rights = new_rights;
    }

    /// The addresses of `resolved` that the pool grants, in their order; a
    /// failed resolution is handed on as it is.
    pub fn addr_pool_resolve(&self, resolved: Result<Vec<Addr>, Errno>) -> (granted: Result<
        Vec<Addr>,
        Errno,
    >)
        ensures
            granted.is_ok() == resolved.is_ok(),
            resolved matches Err(e) ==> granted == Err::<Vec<Addr>, Errno>(e),
            resolved matches Ok(all) ==> granted.unwrap()@ == spec_granted(*self, all@),
    {
        addr_pool_resolve(self, resolved)
    }
}

impl AddressPool for RangedAddressPool {
    open spec fn spec_contains(&self, addr: Addr) -> bool {
        self.spec_cidr().spec_contains(addr) && self.spec_ports().spec_contains(addr.spec_port())
    }

    fn addr_pool_contains(&self, addr: &Addr) -> (granted: Result<bool, Errno>) {
        Ok(self.cidr.contains(addr) && self.ports.contains(addr.port()))
    }
}

/// Of the addresses `all`, those that `pool` grants, in their order.
pub open spec fn spec_granted<P: AddressPool>(pool: P, all: Seq<Addr>) -> Seq<Addr> {
    all.filter(|a: Addr| pool.spec_contains(a))
}

/// Filtering a sequence with one more element at its end keeps that element
/// exactly when the predicate holds of it.
proof fn lemma_filter_push(s: Seq<Addr>, x: Addr, pred: spec_fn(Addr) -> bool)
    ensures
        s.push(x).filter(pred) == if pred(x) {
            s.filter(pred).push(x)
        } else {
            s.filter(pred)
        },
{
    reveal_with_fuel(Seq::filter, 2);
    assert(s.push(x).drop_last() =~= s);
}

/// What a name resolved to, cut down to the pool: the addresses of
/// `resolved` that `pool` grants, in their order. Where none is granted the
/// list is empty, which is no error; a failed resolution is handed on as it
/// is.
pub fn addr_pool_resolve<P: AddressPool>(pool: &P, resolved: Result<Vec<Addr>, Errno>) -> (granted:
    Result<Vec<Addr>, Errno>)
    ensures
        granted.is_ok() == resolved.is_ok(),
        resolved matches Err(e) ==> granted == Err::<Vec<Addr>, Errno>(e),
        resolved matches Ok(all) ==> granted.unwrap()@ == spec_granted(*pool, all@),
{
    match resolved {
        Err(e) => Err(e),
        Ok(all) => {
            let ghost pred = |a: Addr| pool.spec_contains(a);
            let mut v: Vec<Addr> = Vec::new();
            let mut i: usize = 0;
            proof {
                reveal_with_fuel(Seq::filter, 1);
                assert(all@.take(0) =~= Seq::<Addr>::empty());
            }
            while i < all.len()
                invariant
                    i <= all.len(),
                    pred == (|a: Addr| pool.spec_contains(a)),
                    v@ == all@.take(i as int).filter(pred),
                decreases all.len() - i,
            {
                let addr = all[i];
                proof {
                    lemma_filter_push(all@.take(i as int), addr, pred);
                    assert(all@.take(i as int).push(addr) =~= all@.take(i + 1));
                }
                let granted = match pool.addr_pool_contains(&addr) {
                    Ok(granted) => granted,
                    Err(_) => false,
                };
                if granted {
                    v.push(addr);
                }
                i = i + 1;
            }
            assert(all@.take(all.len() as int) =~= all@);
            Ok(v)
        },
    }
}

/// A pool made from one endpoint grants that endpoint and no other: a
/// different address or a different port is refused.
pub proof fn lemma_single_endpoint_pool(pool: FixedAddressPool, addr: Addr, other: Addr)
    requires
        pool.spec_addrs() == seq![addr],
    ensures
        pool.spec_contains(other) <==> other == addr,
{
    if other == addr {
        assert(seq![addr][0] == addr);
    }
}

/// A ranged pool grants an endpoint exactly when the address lies in the
/// network and the port lies in the range: the first port of the range is
/// granted, the port at its end is not.
pub proof fn lemma_ranged_pool_membership(pool: RangedAddressPool, addr: Addr)
    ensures
        pool.spec_contains(addr) <==> (pool.spec_cidr().spec_contains(addr)
            && pool.spec_ports().start <= addr.spec_port() < pool.spec_ports().end),
        addr.spec_port() == pool.spec_ports().end ==> !pool.spec_contains(addr),
        addr.spec_port() < pool.spec_ports().start ==> !pool.spec_contains(addr),
{
}

/// Membership looks at nothing but the pool and the address: changing the
/// pool's rights changes no answer.
pub proof fn lemma_membership_ignores_rights(
    before: RangedAddressPool,
    after: RangedAddressPool,
    addr: Addr,
)
    requires
        after.spec_cidr() == before.spec_cidr(),
        after.spec_ports() == before.spec_ports(),
    ensures
        after.spec_contains(addr) == before.spec_contains(addr),
{
}

} // verus!
