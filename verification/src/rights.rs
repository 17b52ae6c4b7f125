//! Rights: what a handle permits now, and what it passes on to the handles
//! made from it.

use vstd::prelude::*;
use crate::types::Errno;

verus! {

/// A set of rights, one bit each.
#[derive(Clone, Copy, Debug, PartialEq, Eq, Structural)]
pub struct Rights {
    pub bits: u64,
}

/// The two sets a handle carries: `base` bounds what may be done with the
/// handle itself, `inheriting` what may be done with handles made from it.
#[derive(Clone, Copy, Debug, PartialEq, Eq, Structural)]
pub struct HandleRights {
    pub base: Rights,
    pub inheriting: Rights,
}

/// Shut down one or both directions of a socket.
pub const RIGHTS_SOCK_SHUTDOWN: u64 = 0x1000_0000;

/// Open a socket under an address pool.
pub const RIGHTS_SOCK_OPEN: u64 = 0x2000_0000;

/// Close a socket.
pub const RIGHTS_SOCK_CLOSE: u64 = 0x4000_0000;

/// Bind a socket to a local address.
pub const RIGHTS_SOCK_BIND: u64 = 0x8000_0000;

/// Connect a socket to a remote address.
pub const RIGHTS_SOCK_CONNECT: u64 = 0x1_0000_0000;

/// Put a socket into the listening state.
pub const RIGHTS_SOCK_LISTEN: u64 = 0x2_0000_0000;

/// Accept a connection on a listening socket.
pub const RIGHTS_SOCK_ACCEPT: u64 = 0x4_0000_0000;

/// Receive on a socket.
pub const RIGHTS_SOCK_RECV: u64 = 0x8_0000_0000;

/// Send on a socket.
pub const RIGHTS_SOCK_SEND: u64 = 0x10_0000_0000;

/// Receive on a socket and learn the sender.
pub const RIGHTS_SOCK_RECV_FROM: u64 = 0x20_0000_0000;

/// Send on a socket to a named address.
pub const RIGHTS_SOCK_SEND_TO: u64 = 0x40_0000_0000;

/// Ask a socket for its local or remote address.
pub const RIGHTS_SOCK_ADDR: u64 = 0x80_0000_0000;

/// Read or change a socket option.
pub const RIGHTS_SOCK_OPTION: u64 = 0x100_0000_0000;

/// Resolve a host name under an address pool.
pub const RIGHTS_ADDR_RESOLVE: u64 = 0x200_0000_0000;

/// Every right a socket operation can ask for.
pub const RIGHTS_SOCKET_ALL: u64 = 0x1ff_f000_0000;

/// Every right an address pool is made with.
pub const RIGHTS_ADDRESS_POOL_ALL: u64 = 0x3ff_f000_0000;

impl Rights {
    /// Whether every right of `other` is in `self`.
    pub open spec fn spec_contains(self, other: Rights) -> bool {
        self.bits & other.bits == other.bits
    }

    /// The rights of `self` that are not in `remove`.
    pub open spec fn spec_without(self, remove: Rights) -> Rights {
        Rights { bits: self.bits & !remove.bits }
    }

    /// No right at all.
    pub fn empty() -> (rights: Rights)
        ensures
            rights.bits == 0,
    {
        Rights { bits: 0 }
    }

    /// The rights an address pool itself is made with: every socket right,
    /// and name resolution.
    pub fn address_pool_base() -> (rights: Rights)
        ensures
            rights.bits == RIGHTS_ADDRESS_POOL_ALL,
    {
        Rights { bits: RIGHTS_ADDRESS_POOL_ALL }
    }

    /// The rights an address pool passes on to the sockets opened under it.
    pub fn address_pool_inheriting() -> (rights: Rights)
        ensures
            rights.bits == RIGHTS_SOCKET_ALL,
    {
        Rights { bits: RIGHTS_SOCKET_ALL }
    }

    /// Whether every right of `other` is in `self`.
    pub fn contains(&self, other: &Rights) -> (inside: bool)
        ensures
            inside == self.spec_contains(*other),
    {
        self.bits & other.bits == other.bits
    }

    /// The rights of `self` that are not in `remove`.
    pub fn without(&self, remove: &Rights) -> (rest: Rights)
        ensures
            rest == self.spec_without(*remove),
    {
        Rights { bits: self.bits & !remove.bits }
    }
}

impl HandleRights {
    /// Whether both sets of `other` lie within those of `self`.
    pub open spec fn spec_contains(self, other: HandleRights) -> bool {
        self.base.spec_contains(other.base) && self.inheriting.spec_contains(other.inheriting)
    }

    /// The rights of `self` without `remove_base` and `remove_inheriting`.
    pub open spec fn spec_without(self, remove_base: Rights, remove_inheriting: Rights)
        -> HandleRights {
        HandleRights {
            base: self.base.spec_without(remove_base),
            inheriting: self.inheriting.spec_without(remove_inheriting),
        }
    }

    /// The rights with the given two sets.
    pub fn new(base: Rights, inheriting: Rights) -> (rights: HandleRights)
        ensures
            rights == (HandleRights { base, inheriting }),
    {
        HandleRights { base, inheriting }
    }

    /// The rights with the given base set, passing nothing on.
    pub fn from_base(base: Rights) -> (rights: HandleRights)
        ensures
            rights == (HandleRights { base, inheriting: Rights { bits: 0 } }),
    {
        HandleRights { base, inheriting: Rights::empty() }
    }

    /// Whether both sets of `other` lie within those of `self`.
    pub fn contains(&self, other: &HandleRights) -> (inside: bool)
        ensures
            inside == self.spec_contains(*other),
    {
        self.base.contains(&other.base) && self.inheriting.contains(&other.inheriting)
    }

    /// Whether the handle may be used for an operation that asks for
    /// `required`: not capable where a right is missing.
    pub fn check(&self, required: &HandleRights) -> (allowed: Result<(), Errno>)
        ensures
            allowed == if self.spec_contains(*required) {
                Ok::<(), Errno>(())
            } else {
                Err::<(), Errno>(Errno::Notcapable)
            },
    {
        if self.contains(required) {
            Ok(())
        } else {
            Err(Errno::Notcapable)
        }
    }

    /// Takes the rights in `remove_base` and `remove_inheriting` away. What
    /// is left lies within what was there: narrowing never adds a right.
    pub fn narrow(&mut self, remove_base: Rights, remove_inheriting: Rights)
        ensures
            *final(self) == old(self).spec_without(remove_base, remove_inheriting),
            old(self).spec_contains(*final(self)),
    {
        proof {
            lemma_without_shrinks(self.base, remove_base);
            lemma_without_shrinks(self.inheriting, remove_inheriting);
        }
        self.base = self.base.without(&remove_base);
        self.inheriting = self.inheriting.without(&remove_inheriting);
    }

    /// Replaces the rights by `new_rights` where these lie within the present
    /// ones; an attempt to gain a right is refused as not capable, and the
    /// rights stay as they were.
    pub fn restrict(&mut self, new_rights: HandleRights) -> (done: Result<(), Errno>)
        ensures
            old(self).spec_contains(new_rights) ==> done == Ok::<(), Errno>(()) && *final(self)
                == new_rights,
            !old(self).spec_contains(new_rights) ==> done == Err::<(), Errno>(Errno::Notcapable)
                && *final(self) == *old(self),
            old(self).spec_contains(*final(self)),
    {
        proof {
            lemma_contains_reflexive(self.base);
            lemma_contains_reflexive(self.inheriting);
        }
        if self.contains(&new_rights) {
            self.base = new_rights.base;
            self.inheriting = new_rights.inheriting;
            Ok(())
        } else {
            Err(Errno::Notcapable)
        }
    }
}

/// Every set of rights lies within itself.
pub proof fn lemma_contains_reflexive(a: Rights)
    ensures
        a.spec_contains(a),
{
    let x = a.bits;
    assert(x & x == x) by (bit_vector);
}

/// Lying within is transitive: a handle narrowed twice still lies within
/// what it started from.
pub proof fn lemma_contains_transitive(a: Rights, b: Rights, c: Rights)
    requires
        a.spec_contains(b),
        b.spec_contains(c),
    ensures
        a.spec_contains(c),
{
    let x = a.bits;
    let y = b.bits;
    let z = c.bits;
    assert(x & z == z) by (bit_vector)
        requires
            x & y == y,
            y & z == z,
    ;
}

/// Taking rights away leaves a set that lies within the first and shares
/// nothing with what was taken.
pub proof fn lemma_without_shrinks(a: Rights, remove: Rights)
    ensures
        a.spec_contains(a.spec_without(remove)),
        a.spec_without(remove).bits & remove.bits == 0,
{
    let x = a.bits;
    let r = remove.bits;
    assert(x & (x & !r) == (x & !r)) by (bit_vector);
    assert((x & !r) & r == 0) by (bit_vector);
}

/// A right that a handle lacks stays lacking through any narrowing: if an
/// operation's right is missing before, it is missing afterwards.
pub proof fn lemma_narrowing_never_grants(
    rights: HandleRights,
    remove_base: Rights,
    remove_inheriting: Rights,
    required: HandleRights,
)
    requires
        rights.spec_without(remove_base, remove_inheriting).spec_contains(required),
    ensures
        rights.spec_contains(required),
{
    let narrowed = rights.spec_without(remove_base, remove_inheriting);
    lemma_without_shrinks(rights.base, remove_base);
    lemma_without_shrinks(rights.inheriting, remove_inheriting);
    lemma_contains_transitive(rights.base, narrowed.base, required.base);
    lemma_contains_transitive(rights.inheriting, narrowed.inheriting, required.inheriting);
}

} // verus!
