//! Handles: one contract for every kind of resource.
//!
//! Every operation exists on every handle. It first asks whether the handle
//! carries the right that the operation needs, and then whether the resource
//! behind the handle implements the operation at all; a resource that does
//! not answers that the operation is not supported.

use vstd::prelude::*;
use crate::addr::{
    addr_pool_resolve, spec_granted, AddressPool, FixedAddressPool, RangedAddressPool,
};
use crate::codec::{spec_from_native, spec_recv_flags, spec_shutdown_mode};
use crate::native;
use crate::native::{Platform, SendFlags, SockAddr};
use crate::ossocket::{spec_backlog, AttachedPool, OsSocket, RawOsSocket, SocketCall, Step};
use crate::rights::{
    HandleRights, Rights, RIGHTS_ADDR_RESOLVE, RIGHTS_SOCK_ACCEPT, RIGHTS_SOCK_ADDR,
    RIGHTS_SOCK_BIND, RIGHTS_SOCK_CONNECT, RIGHTS_SOCK_LISTEN, RIGHTS_SOCK_OPEN,
    RIGHTS_SOCK_OPTION, RIGHTS_SOCK_RECV, RIGHTS_SOCK_RECV_FROM, RIGHTS_SOCK_SEND,
    RIGHTS_SOCK_SEND_TO, RIGHTS_SOCK_SHUTDOWN,
};
use crate::types::{
    Addr, AddressFamily, Errno, Filetype, Riflags, Sdflags, Siflags, Size, SockType,
};

verus! {

/// A resource that this layer holds but does not implement: a file, a
/// directory, a standard stream. Its kind is none of this layer's own.
#[derive(Clone, Copy, Debug, PartialEq, Eq, Structural)]
pub struct OtherHandle {
    kind: Filetype,
    rights: HandleRights,
}

/// A capability: one resource, and the rights that bound its use.
#[derive(Debug)]
pub enum Handle {
    Socket(OsSocket),
    FixedPool(FixedAddressPool),
    RangedPool(RangedAddressPool),
    Other(OtherHandle),
}

/// Whether `kind` is a kind of resource that this layer implements itself.
pub open spec fn spec_own_kind(kind: Filetype) -> bool {
    kind == Filetype::AddressPool || kind == Filetype::SocketStream || kind
        == Filetype::SocketDgram
}

impl OtherHandle {
    #[verifier::type_invariant]
    spec fn sound(self) -> bool {
        !spec_own_kind(self.kind)
    }

    /// The kind of the resource.
    pub closed spec fn spec_kind(self) -> Filetype {
        self.kind
    }

    /// The rights the handle carries.
    pub closed spec fn spec_rights(self) -> HandleRights {
        self.rights
    }

    /// The handle of a resource of kind `kind` with the rights `rights`,
    /// or `None` where `kind` is a socket or an address pool: those have
    /// handles of their own.
    pub fn new(kind: Filetype, rights: HandleRights) -> (handle: Option<OtherHandle>)
        ensures
            handle.is_some() == !spec_own_kind(kind),
            handle matches Some(h) ==> h.spec_kind() == kind && h.spec_rights() == rights,
    {
        match kind {
            Filetype::AddressPool => None,
            Filetype::SocketStream => None,
            Filetype::SocketDgram => None,
            _ => Some(OtherHandle { kind, rights }),
        }
    }

    /// The kind of the resource: no socket and no address pool.
    pub fn kind(&self) -> (kind: Filetype)
        ensures
            kind == self.spec_kind(),
            !spec_own_kind(kind),
    {
        proof {
            use_type_invariant(self);
        }
        self.kind
    }

    /// The rights the handle carries.
    pub fn rights(&self) -> (rights: HandleRights)
        ensures
            rights == self.spec_rights(),
    {
        self.rights
    }

    /// Gives the handle the rights `new_rights`; the kind stays.
    pub fn set_rights(&mut self, new_rights: HandleRights)
        ensures
            final(self).spec_rights() == new_rights,
            final(self).spec_kind() == old(self).spec_kind(),
    {
        proof {
            use_type_invariant(&*self);
        }
        self.rights = new_rights;
    }
}

impl Handle {
    /// The kind of the resource.
    pub open spec fn spec_file_type(&self) -> Filetype {
        match self {
            Handle::Socket(socket) => Filetype::spec_from(socket.spec_socket_type()),
            Handle::FixedPool(_) => Filetype::AddressPool,
            Handle::RangedPool(_) => Filetype::AddressPool,
            Handle::Other(other) => other.spec_kind(),
        }
    }

    /// The rights the handle carries.
    pub open spec fn spec_rights(&self) -> HandleRights {
        match self {
            Handle::Socket(socket) => socket.spec_rights(),
            Handle::FixedPool(pool) => pool.spec_rights(),
            Handle::RangedPool(pool) => pool.spec_rights(),
            Handle::Other(other) => other.spec_rights(),
        }
    }

    /// Whether the handle carries the base right `right`.
    pub open spec fn spec_permits(&self, right: u64) -> bool {
        self.spec_rights().base.spec_contains(Rights { bits: right })
    }

    /// The socket an operation that needs `right` works on: not capable
    /// where the handle lacks the right, not supported where the resource is
    /// no socket.
    pub open spec fn spec_as_socket(&self, right: u64) -> Result<OsSocket, Errno> {
        if !self.spec_permits(right) {
            Err(Errno::Notcapable)
        } else {
            match self {
                Handle::Socket(socket) => Ok(*socket),
                _ => Err(Errno::Notsup),
            }
        }
    }

    /// Whether the handle is the same resource as `old` with nothing but the
    /// rights changed.
    pub open spec fn spec_same_resource(&self, old: &Handle) -> bool {
        match (self, old) {
            (Handle::Socket(a), Handle::Socket(b)) => a.spec_socket_type() == b.spec_socket_type()
                && a.spec_address_family() == b.spec_address_family() && a.spec_fd() == b.spec_fd()
                && a.spec_addr_pool() == b.spec_addr_pool(),
            (Handle::FixedPool(a), Handle::FixedPool(b)) => a.spec_addrs() == b.spec_addrs(),
            (Handle::RangedPool(a), Handle::RangedPool(b)) => a.spec_cidr() == b.spec_cidr()
                && a.spec_ports() == b.spec_ports(),
            (Handle::Other(a), Handle::Other(b)) => a.spec_kind() == b.spec_kind(),
            _ => false,
        }
    }

    /// The kind of the resource.
    pub fn get_file_type(&self) -> (kind: Filetype)
        ensures
            kind == self.spec_file_type(),
    {
        match self {
            Handle::Socket(socket) => socket.get_file_type(),
            Handle::FixedPool(pool) => pool.get_file_type(),
            Handle::RangedPool(pool) => pool.get_file_type(),
            Handle::Other(other) => other.kind(),
        }
    }

    /// The rights the handle carries.
    pub fn get_rights(&self) -> (rights: HandleRights)
        ensures
            rights == self.spec_rights(),
    {
        match self {
            Handle::Socket(socket) => socket.get_rights(),
            Handle::FixedPool(pool) => pool.get_rights(),
            Handle::RangedPool(pool) => pool.get_rights(),
            Handle::Other(other) => other.rights(),
        }
    }

    /// Gives the handle the rights `new_rights`. This is how the table that
    /// owns the handle states its first rights; the resource stays.
    pub fn set_rights(&mut self, new_rights: HandleRights)
        ensures
            final(self).spec_rights() == new_rights,
            final(self).spec_same_resource(old(self)),
    {
        match self {
            Handle::Socket(socket) => socket.set_rights(new_rights),
            Handle::FixedPool(pool) => pool.set_rights(new_rights),
            Handle::RangedPool(pool) => pool.set_rights(new_rights),
            Handle::Other(other) => other.set_rights(new_rights),
        }
    }

    /// Takes rights away from the handle. What is left lies within what was
    /// there, so the rights of a handle only ever shrink this way; the
    /// resource stays.
    pub fn narrow_rights(&mut self, remove_base: Rights, remove_inheriting: Rights)
        ensures
            final(self).spec_rights() == old(self).spec_rights().spec_without(
                remove_base,
                remove_inheriting,
            ),
            old(self).spec_rights().spec_contains(final(self).spec_rights()),
            final(self).spec_same_resource(old(self)),
    {
        let mut rights = self.get_rights();
        rights.narrow(remove_base, remove_inheriting);
        self.set_rights(rights);
    }

    /// Replaces the rights by `new_rights` where these lie within the
    /// present ones; an attempt to gain a right is refused as not capable and
    /// changes nothing.
    pub fn restrict_rights(&mut self, new_rights: HandleRights) -> (done: Result<(), Errno>)
        ensures
            old(self).spec_rights().spec_contains(new_rights) ==> done == Ok::<(), Errno>(())
                && final(self).spec_rights() == new_rights,
            !old(self).spec_rights().spec_contains(new_rights) ==> done == Err::<(), Errno>(
                Errno::Notcapable,
            ) && final(self).spec_rights() == old(self).spec_rights(),
            final(self).spec_same_resource(old(self)),
    {
        let mut rights = self.get_rights();
        let done = rights.restrict(new_rights);
        self.set_rights(rights);
        done
    }

    /// Whether `copy` is a second handle on a pool or on a resource of
    /// another layer: of the same kind, with the same rights, and for a pool
    /// granting the same.
    pub open spec fn spec_cloned(&self, copy: &Handle) -> bool {
        match (self, copy) {
            (Handle::FixedPool(a), Handle::FixedPool(b)) => a.spec_addrs() == b.spec_addrs()
                && a.spec_rights() == b.spec_rights(),
            (Handle::RangedPool(a), Handle::RangedPool(b)) => a.spec_cidr() == b.spec_cidr()
                && a.spec_ports() == b.spec_ports() && a.spec_rights() == b.spec_rights(),
            (Handle::Other(a), Handle::Other(b)) => a == b,
            _ => false,
        }
    }

    /// The first step of making a second handle on the same resource. A
    /// socket needs its descriptor duplicated, and the step is that call; a
    /// pool or a resource of another layer has no descriptor here, and the
    /// step is the second handle itself.
    pub fn try_clone(&self) -> (step: Step<Handle>)
        ensures
            match self {
                Handle::Socket(socket) => step == Step::<Handle>::Call(
                    SocketCall::Duplicate { fd: socket.spec_fd() },
                ),
                _ => step matches Step::Done(copy) && self.spec_cloned(&copy),
            },
    {
        match self {
            Handle::Socket(socket) => Step::Call(socket.try_clone()),
            Handle::FixedPool(pool) => Step::Done(Handle::FixedPool(pool.copy())),
            Handle::RangedPool(pool) => Step::Done(Handle::RangedPool(*pool)),
            Handle::Other(other) => Step::Done(Handle::Other(*other)),
        }
    }

    /// The second handle on a socket that a duplicate call gave: over the
    /// new descriptor, of the same type, family and rights, attached to a
    /// pool that grants the same. Where the call failed, the platform's
    /// error code; on a handle that is no socket, not supported.
    pub fn cloned(&self, result: Result<i32, i32>) -> (copy: Result<Handle, Errno>)
        ensures
            match self {
                Handle::Socket(socket) => match result {
                    Ok(fd) => copy matches Ok(Handle::Socket(second)) && socket.spec_cloned(
                        &second,
                        fd,
                    ),
                    Err(code) => copy matches Err(e) && e == Errno::Os(code),
                },
                _ => copy matches Err(e) && e == Errno::Notsup,
            },
    {
        match self {
            Handle::Socket(socket) => match socket.cloned(result) {
                Ok(copy) => Ok(Handle::Socket(copy)),
                Err(e) => Err(e),
            },
            _ => Err(Errno::Notsup),
        }
    }

    /// Whether the resource is a directory.
    pub fn is_directory(&self) -> (answer: bool)
        ensures
            answer == (self.spec_file_type() == Filetype::Directory),
    {
        match self.get_file_type() {
            Filetype::Directory => true,
            _ => false,
        }
    }

    /// Whether the handle carries the base right `right`: not capable where
    /// it does not.
    pub fn check(&self, right: u64) -> (allowed: Result<(), Errno>)
        ensures
            allowed == if self.spec_permits(right) {
                Ok::<(), Errno>(())
            } else {
                Err::<(), Errno>(Errno::Notcapable)
            },
    {
        let rights = self.get_rights();
        if rights.base.contains(&Rights { bits: right }) {
            Ok(())
        } else {
            Err(Errno::Notcapable)
        }
    }

    /// The socket behind the handle, for an operation that needs `right`.
    pub fn as_socket(&self, right: u64) -> (socket: Result<&OsSocket, Errno>)
        ensures
            match self.spec_as_socket(right) {
                Ok(s) => socket matches Ok(r) && *r == s,
                Err(e) => socket matches Err(f) && f == e,
            },
    {
        match self.check(right) {
            Err(e) => Err(e),
            Ok(_) => match self {
                Handle::Socket(socket) => Ok(socket),
                _ => Err(Errno::Notsup),
            },
        }
    }

    /// Whether the pool behind the handle grants `addr`; not supported where
    /// the resource is no address pool.
    pub fn addr_pool_contains(&self, addr: &Addr) -> (granted: Result<bool, Errno>)
        ensures
            granted == match self {
                Handle::FixedPool(pool) => Ok::<bool, Errno>(pool.spec_contains(*addr)),
                Handle::RangedPool(pool) => Ok::<bool, Errno>(pool.spec_contains(*addr)),
                _ => Err::<bool, Errno>(Errno::Notsup),
            },
    {
        match self {
            Handle::FixedPool(pool) => pool.addr_pool_contains(addr),
            Handle::RangedPool(pool) => pool.addr_pool_contains(addr),
            _ => Err(Errno::Notsup),
        }
    }

    /// The addresses of `resolved` that the pool behind the handle grants.
    /// Not capable where the handle may not resolve, not supported where the
    /// resource is no address pool; a failed resolution is handed on.
    pub fn addr_pool_resolve(&self, resolved: Result<Vec<Addr>, Errno>) -> (granted: Result<
        Vec<Addr>,
        Errno,
    >)
        ensures
            !self.spec_permits(RIGHTS_ADDR_RESOLVE) ==> granted == Err::<Vec<Addr>, Errno>(
                Errno::Notcapable,
            ),
            self.spec_permits(RIGHTS_ADDR_RESOLVE) ==> match self {
                Handle::FixedPool(pool) => match resolved {
                    Ok(all) => granted matches Ok(v) && v@ == spec_granted(*pool, all@),
                    Err(e) => granted == Err::<Vec<Addr>, Errno>(e),
                },
                Handle::RangedPool(pool) => match resolved {
                    Ok(all) => granted matches Ok(v) && v@ == spec_granted(*pool, all@),
                    Err(e) => granted == Err::<Vec<Addr>, Errno>(e),
                },
                _ => granted == Err::<Vec<Addr>, Errno>(Errno::Notsup),
            },
    {
        match self.check(RIGHTS_ADDR_RESOLVE) {
            Err(e) => Err(e),
            Ok(_) => match self {
                Handle::FixedPool(pool) => addr_pool_resolve(pool, resolved),
                Handle::RangedPool(pool) => addr_pool_resolve(pool, resolved),
                _ => Err(Errno::Notsup),
            },
        }
    }

    /// What opening a socket under the handle `pool` comes to, before any
    /// call: a bad descriptor where there is no such handle, an invalid
    /// argument where the handle is no address pool, not capable where the
    /// pool may not open sockets; otherwise the call that opens the socket.
    pub open spec fn spec_sock_open(
        pool: Option<&Handle>,
        address_family: AddressFamily,
        socket_type: SockType,
    ) -> Result<SocketCall, Errno> {
        match pool {
            None => Err(Errno::Badf),
            Some(handle) => if handle.spec_file_type() != Filetype::AddressPool {
                Err(Errno::Inval)
            } else if !handle.spec_permits(RIGHTS_SOCK_OPEN) {
                Err(Errno::Notcapable)
            } else {
                Ok(
                    SocketCall::Socket {
                        family: native::AddressFamily::spec_from(address_family),
                        socket_type: native::SockType::spec_from(socket_type),
                        protocol: None,
                    },
                )
            },
        }
    }

    /// The call that opens a socket under the handle `pool`, or the reason
    /// why none may be opened.
    pub fn sock_open(pool: Option<&Handle>, address_family: AddressFamily, socket_type: SockType)
        -> (call: Result<SocketCall, Errno>)
        ensures
            call == Self::spec_sock_open(pool, address_family, socket_type),
    {
        match pool {
            None => Err(Errno::Badf),
            Some(handle) => {
                match handle.get_file_type() {
                    Filetype::AddressPool => {},
                    _ => {
                        return Err(Errno::Inval);
                    },
                }
                match handle.check(RIGHTS_SOCK_OPEN) {
                    Err(e) => Err(e),
                    Ok(_) => Ok(RawOsSocket::new(address_family, socket_type)),
                }
            },
        }
    }

    /// The handle of a socket that was opened under the pool `pool`: over the
    /// descriptor that the call gave, of the family and type asked for,
    /// attached to a pool that grants what `pool` grants, and carrying the
    /// rights that the pool passes on. Where the call failed, the platform's
    /// error code; where `pool` is no address pool, an invalid argument.
    pub fn sock_opened(
        pool: &Handle,
        address_family: AddressFamily,
        socket_type: SockType,
        result: Result<i32, i32>,
    ) -> (opened: Result<Handle, Errno>)
        ensures
            pool.spec_file_type() != Filetype::AddressPool ==> (opened matches Err(e) && e
                == Errno::Inval),
            pool.spec_file_type() == Filetype::AddressPool ==> match result {
                Err(code) => opened matches Err(e) && e == Errno::Os(code),
                Ok(fd) => opened matches Ok(Handle::Socket(socket)) && socket.spec_fd() == fd && socket.spec_address_family() == address_family
                    && socket.spec_socket_type() == socket_type && socket.spec_rights() == (
                HandleRights {
                    base: pool.spec_rights().inheriting,
                    inheriting: pool.spec_rights().inheriting,
                }) && (forall|addr: Addr|
                    socket.spec_grants(addr) == (pool.addr_pool_grants(addr))),
            },
    {
        let attached = match pool {
            Handle::FixedPool(fixed) => AttachedPool::Fixed(fixed.copy()),
            Handle::RangedPool(ranged) => AttachedPool::Ranged(*ranged),
            Handle::Socket(_) => {
                return Err(Errno::Inval);
            },
            Handle::Other(other) => {
                proof {
                    use_type_invariant(other);
                }
                return Err(Errno::Inval);
            },
        };
        let fd = match result {
            Ok(fd) => fd,
            Err(code) => {
                return Err(Errno::Os(code));
            },
        };
        let inheriting = pool.get_rights().inheriting;
        let mut socket = OsSocket::new(
            address_family,
            socket_type,
            attached,
            RawOsSocket::from_fd(fd),
        );
        socket.set_rights(HandleRights::new(inheriting, inheriting));
        Ok(Handle::Socket(socket))
    }

    /// Whether the pool behind the handle grants `addr`; a handle that is no
    /// pool grants nothing.
    pub open spec fn addr_pool_grants(&self, addr: Addr) -> bool {
        match self {
            Handle::FixedPool(pool) => pool.spec_contains(addr),
            Handle::RangedPool(pool) => pool.spec_contains(addr),
            _ => false,
        }
    }

    /// The call that connects the socket to `addr`.
    pub fn sock_connect(&self, addr: &Addr, platform: &Platform) -> (call: Result<
        SocketCall,
        Errno,
    >)
        ensures
            match self.spec_as_socket(RIGHTS_SOCK_CONNECT) {
                Ok(s) => s.spec_connect_outcome(*addr, platform@, call),
                Err(e) => call matches Err(f) && f == e,
            },
    {
        match self.as_socket(RIGHTS_SOCK_CONNECT) {
            Ok(socket) => socket.sock_connect(addr, platform),
            Err(e) => Err(e),
        }
    }

    /// The call that binds the socket to `addr`.
    pub fn sock_bind(&self, addr: &Addr, platform: &Platform) -> (call: Result<SocketCall, Errno>)
        ensures
            match self.spec_as_socket(RIGHTS_SOCK_BIND) {
                Ok(s) => s.spec_bind_outcome(*addr, platform@, call),
                Err(e) => call matches Err(f) && f == e,
            },
    {
        match self.as_socket(RIGHTS_SOCK_BIND) {
            Ok(socket) => socket.sock_bind(addr, platform),
            Err(e) => Err(e),
        }
    }

    /// The call that sends to `addr`.
    pub fn sock_send_to(&self, addr: &Addr, flags: Siflags, platform: &Platform) -> (call: Result<
        SocketCall,
        Errno,
    >)
        ensures
            match self.spec_as_socket(RIGHTS_SOCK_SEND_TO) {
                Ok(s) => s.spec_send_to_outcome(*addr, platform@, call),
                Err(e) => call matches Err(f) && f == e,
            },
    {
        match self.as_socket(RIGHTS_SOCK_SEND_TO) {
            Ok(socket) => socket.sock_send_to(addr, flags, platform),
            Err(e) => Err(e),
        }
    }

    /// The call that makes the socket listen.
    pub fn sock_listen(&self, backlog: u32) -> (call: Result<SocketCall, Errno>)
        ensures
            call == match self.spec_as_socket(RIGHTS_SOCK_LISTEN) {
                Ok(s) => Ok::<SocketCall, Errno>(
                    SocketCall::Listen { fd: s.spec_fd(), backlog: spec_backlog(backlog) },
                ),
                Err(e) => Err::<SocketCall, Errno>(e),
            },
    {
        match self.as_socket(RIGHTS_SOCK_LISTEN) {
            Ok(socket) => socket.sock_listen(backlog),
            Err(e) => Err(e),
        }
    }

    /// The call that takes the next connection.
    pub fn sock_accept(&self) -> (call: Result<SocketCall, Errno>)
        ensures
            call == match self.spec_as_socket(RIGHTS_SOCK_ACCEPT) {
                Ok(s) => Ok::<SocketCall, Errno>(SocketCall::Accept { fd: s.spec_fd() }),
                Err(e) => Err::<SocketCall, Errno>(e),
            },
    {
        match self.as_socket(RIGHTS_SOCK_ACCEPT) {
            Ok(socket) => socket.sock_accept(),
            Err(e) => Err(e),
        }
    }

    /// The handle of a connection that an accept call gave: a socket with
    /// the listening socket's rights and with no pool.
    pub fn sock_accepted(&self, result: Result<(i32, SockAddr), i32>, platform: &Platform) -> (accepted:
        Result<Handle, Errno>)
        ensures
            match self.spec_as_socket(RIGHTS_SOCK_ACCEPT) {
                Ok(s) => match accepted {
                    Ok(Handle::Socket(socket)) => s.spec_accepted_outcome(
                        result,
                        platform@,
                        Ok(socket),
                    ),
                    Ok(_) => false,
                    Err(e) => s.spec_accepted_outcome(
                        result,
                        platform@,
                        Err::<OsSocket, Errno>(e),
                    ),
                },
                Err(e) => accepted matches Err(f) && f == e,
            },
    {
        match self.as_socket(RIGHTS_SOCK_ACCEPT) {
            Ok(socket) => match socket.sock_accepted(result, platform) {
                Ok(accepted) => Ok(Handle::Socket(accepted)),
                Err(e) => Err(e),
            },
            Err(e) => Err(e),
        }
    }

    /// The call that shuts the socket down, or an invalid-argument error
    /// where `how` names no direction.
    pub fn sock_shutdown(&self, how: Sdflags) -> (call: Result<SocketCall, Errno>)
        ensures
            call == match self.spec_as_socket(RIGHTS_SOCK_SHUTDOWN) {
                Ok(s) => match spec_shutdown_mode(how) {
                    Ok(mode) => Ok::<SocketCall, Errno>(
                        SocketCall::Shutdown { fd: s.spec_fd(), how: mode },
                    ),
                    Err(e) => Err::<SocketCall, Errno>(e),
                },
                Err(e) => Err::<SocketCall, Errno>(e),
            },
    {
        match self.as_socket(RIGHTS_SOCK_SHUTDOWN) {
            Ok(socket) => socket.sock_shutdown(how),
            Err(e) => Err(e),
        }
    }

    /// The call that receives.
    pub fn sock_recv(&self, flags: Riflags) -> (call: Result<SocketCall, Errno>)
        ensures
            call == match self.spec_as_socket(RIGHTS_SOCK_RECV) {
                Ok(s) => Ok::<SocketCall, Errno>(
                    SocketCall::Recv { fd: s.spec_fd(), flags: spec_recv_flags(flags) },
                ),
                Err(e) => Err::<SocketCall, Errno>(e),
            },
    {
        match self.as_socket(RIGHTS_SOCK_RECV) {
            Ok(socket) => socket.sock_recv(flags),
            Err(e) => Err(e),
        }
    }

    /// The call that receives and reports the sender.
    pub fn sock_recv_from(&self, flags: Riflags) -> (call: Result<SocketCall, Errno>)
        ensures
            call == match self.spec_as_socket(RIGHTS_SOCK_RECV_FROM) {
                Ok(s) => Ok::<SocketCall, Errno>(
                    SocketCall::RecvFrom { fd: s.spec_fd(), flags: spec_recv_flags(flags) },
                ),
                Err(e) => Err::<SocketCall, Errno>(e),
            },
    {
        match self.as_socket(RIGHTS_SOCK_RECV_FROM) {
            Ok(socket) => socket.sock_recv_from(flags),
            Err(e) => Err(e),
        }
    }

    /// What a receive-from call gave, for the guest.
    pub fn sock_received_from(
        &self,
        result: Result<(usize, SockAddr), i32>,
        platform: &Platform,
    ) -> (pair: Result<(usize, Addr), Errno>)
        ensures
            pair == match self.spec_as_socket(RIGHTS_SOCK_RECV_FROM) {
                Ok(_) => match result {
                    Err(code) => Err::<(usize, Addr), Errno>(Errno::Os(code)),
                    Ok((size, sender)) => match spec_from_native(sender@, platform@) {
                        Ok(addr) => Ok::<(usize, Addr), Errno>((size, addr)),
                        Err(e) => Err::<(usize, Addr), Errno>(e),
                    },
                },
                Err(e) => Err::<(usize, Addr), Errno>(e),
            },
    {
        match self.as_socket(RIGHTS_SOCK_RECV_FROM) {
            Ok(socket) => socket.sock_received_from(result, platform),
            Err(e) => Err(e),
        }
    }

    /// The call that sends.
    pub fn sock_send(&self, flags: Siflags) -> (call: Result<SocketCall, Errno>)
        ensures
            call == match self.spec_as_socket(RIGHTS_SOCK_SEND) {
                Ok(s) => Ok::<SocketCall, Errno>(
                    SocketCall::Send {
                        fd: s.spec_fd(),
                        flags: SendFlags { oob: false, dontroute: false },
                    },
                ),
                Err(e) => Err::<SocketCall, Errno>(e),
            },
    {
        match self.as_socket(RIGHTS_SOCK_SEND) {
            Ok(socket) => socket.sock_send(flags),
            Err(e) => Err(e),
        }
    }

    /// The call that asks for the socket's own address.
    pub fn sock_addr_local(&self) -> (call: Result<SocketCall, Errno>)
        ensures
            call == match self.spec_as_socket(RIGHTS_SOCK_ADDR) {
                Ok(s) => Ok::<SocketCall, Errno>(SocketCall::SockName { fd: s.spec_fd() }),
                Err(e) => Err::<SocketCall, Errno>(e),
            },
    {
        match self.as_socket(RIGHTS_SOCK_ADDR) {
            Ok(socket) => socket.sock_addr_local(),
            Err(e) => Err(e),
        }
    }

    /// The call that asks for the peer's address.
    pub fn sock_addr_remote(&self) -> (call: Result<SocketCall, Errno>)
        ensures
            call == match self.spec_as_socket(RIGHTS_SOCK_ADDR) {
                Ok(s) => Ok::<SocketCall, Errno>(SocketCall::PeerName { fd: s.spec_fd() }),
                Err(e) => Err::<SocketCall, Errno>(e),
            },
    {
        match self.as_socket(RIGHTS_SOCK_ADDR) {
            Ok(socket) => socket.sock_addr_remote(),
            Err(e) => Err(e),
        }
    }

    /// What an address query gave, for the guest.
    pub fn sock_address(&self, result: Result<SockAddr, i32>, platform: &Platform) -> (addr: Result<
        Addr,
        Errno,
    >)
        ensures
            addr == match self.spec_as_socket(RIGHTS_SOCK_ADDR) {
                Ok(_) => match result {
                    Err(code) => Err::<Addr, Errno>(Errno::Os(code)),
                    Ok(name) => spec_from_native(name@, platform@),
                },
                Err(e) => Err::<Addr, Errno>(e),
            },
    {
        match self.as_socket(RIGHTS_SOCK_ADDR) {
            Ok(socket) => socket.sock_address(result, platform),
            Err(e) => Err(e),
        }
    }

    /// The call that sets address reuse.
    pub fn sock_set_reuse_addr(&self, reuse: bool) -> (call: Result<SocketCall, Errno>)
        ensures
            call == match self.spec_as_socket(RIGHTS_SOCK_OPTION) {
                Ok(s) => Ok::<SocketCall, Errno>(
                    SocketCall::SetReuseAddr { fd: s.spec_fd(), reuse },
                ),
                Err(e) => Err::<SocketCall, Errno>(e),
            },
    {
        match self.as_socket(RIGHTS_SOCK_OPTION) {
            Ok(socket) => socket.sock_set_reuse_addr(reuse),
            Err(e) => Err(e),
        }
    }

    /// The call that reads address reuse.
    pub fn sock_get_reuse_addr(&self) -> (call: Result<SocketCall, Errno>)
        ensures
            call == match self.spec_as_socket(RIGHTS_SOCK_OPTION) {
                Ok(s) => Ok::<SocketCall, Errno>(SocketCall::GetReuseAddr { fd: s.spec_fd() }),
                Err(e) => Err::<SocketCall, Errno>(e),
            },
    {
        match self.as_socket(RIGHTS_SOCK_OPTION) {
            Ok(socket) => socket.sock_get_reuse_addr(),
            Err(e) => Err(e),
        }
    }

    /// The call that sets port reuse, or success without a call where the
    /// platform does not know port reuse.
    pub fn sock_set_reuse_port(&self, reuse: bool, platform: &Platform) -> (step: Result<
        Step<()>,
        Errno,
    >)
        ensures
            step == match self.spec_as_socket(RIGHTS_SOCK_OPTION) {
                Ok(s) => Ok::<Step<()>, Errno>(
                    if platform@.reuse_port {
                        Step::<()>::Call(SocketCall::SetReusePort { fd: s.spec_fd(), reuse })
                    } else {
                        Step::<()>::Done(())
                    },
                ),
                Err(e) => Err::<Step<()>, Errno>(e),
            },
    {
        match self.as_socket(RIGHTS_SOCK_OPTION) {
            Ok(socket) => socket.sock_set_reuse_port(reuse, platform),
            Err(e) => Err(e),
        }
    }

    /// The call that reads port reuse, or `false` without a call where the
    /// platform does not know port reuse.
    pub fn sock_get_reuse_port(&self, platform: &Platform) -> (step: Result<Step<bool>, Errno>)
        ensures
            step == match self.spec_as_socket(RIGHTS_SOCK_OPTION) {
                Ok(s) => Ok::<Step<bool>, Errno>(
                    if platform@.reuse_port {
                        Step::<bool>::Call(SocketCall::GetReusePort { fd: s.spec_fd() })
                    } else {
                        Step::<bool>::Done(false)
                    },
                ),
                Err(e) => Err::<Step<bool>, Errno>(e),
            },
    {
        match self.as_socket(RIGHTS_SOCK_OPTION) {
            Ok(socket) => socket.sock_get_reuse_port(platform),
            Err(e) => Err(e),
        }
    }

    /// The call that sets the size of the receive buffer.
    pub fn sock_set_recv_buf_size(&self, size: Size) -> (call: Result<SocketCall, Errno>)
        ensures
            call == match self.spec_as_socket(RIGHTS_SOCK_OPTION) {
                Ok(s) => Ok::<SocketCall, Errno>(
                    SocketCall::SetRecvBufSize { fd: s.spec_fd(), size },
                ),
                Err(e) => Err::<SocketCall, Errno>(e),
            },
    {
        match self.as_socket(RIGHTS_SOCK_OPTION) {
            Ok(socket) => socket.sock_set_recv_buf_size(size),
            Err(e) => Err(e),
        }
    }

    /// The call that reads the size of the receive buffer.
    pub fn sock_get_recv_buf_size(&self) -> (call: Result<SocketCall, Errno>)
        ensures
            call == match self.spec_as_socket(RIGHTS_SOCK_OPTION) {
                Ok(s) => Ok::<SocketCall, Errno>(SocketCall::GetRecvBufSize { fd: s.spec_fd() }),
                Err(e) => Err::<SocketCall, Errno>(e),
            },
    {
        match self.as_socket(RIGHTS_SOCK_OPTION) {
            Ok(socket) => socket.sock_get_recv_buf_size(),
            Err(e) => Err(e),
        }
    }

    /// The call that sets the size of the send buffer.
    pub fn sock_set_send_buf_size(&self, size: Size) -> (call: Result<SocketCall, Errno>)
        ensures
            call == match self.spec_as_socket(RIGHTS_SOCK_OPTION) {
                Ok(s) => Ok::<SocketCall, Errno>(
                    SocketCall::SetSendBufSize { fd: s.spec_fd(), size },
                ),
                Err(e) => Err::<SocketCall, Errno>(e),
            },
    {
        match self.as_socket(RIGHTS_SOCK_OPTION) {
            Ok(socket) => socket.sock_set_send_buf_size(size),
            Err(e) => Err(e),
        }
    }

    /// The call that reads the size of the send buffer.
    pub fn sock_get_send_buf_size(&self) -> (call: Result<SocketCall, Errno>)
        ensures
            call == match self.spec_as_socket(RIGHTS_SOCK_OPTION) {
                Ok(s) => Ok::<SocketCall, Errno>(SocketCall::GetSendBufSize { fd: s.spec_fd() }),
                Err(e) => Err::<SocketCall, Errno>(e),
            },
    {
        match self.as_socket(RIGHTS_SOCK_OPTION) {
            Ok(socket) => socket.sock_get_send_buf_size(),
            Err(e) => Err(e),
        }
    }
}

/// A handle that is no socket answers every socket operation with an error
/// and names no call: not capable where it lacks the right, not supported
/// where it has it.
pub proof fn lemma_not_a_socket(handle: Handle, right: u64)
    requires
        !(handle is Socket),
    ensures
        handle.spec_as_socket(right) == Err::<OsSocket, Errno>(
            if handle.spec_permits(right) {
                Errno::Notsup
            } else {
                Errno::Notcapable
            },
        ),
{
}

/// A right that is taken away stays away: after narrowing, an operation
/// that was refused for want of a right is refused still.
pub proof fn lemma_narrowing_keeps_refusals(
    before: Handle,
    after: Handle,
    remove_base: Rights,
    remove_inheriting: Rights,
    right: u64,
)
    requires
        after.spec_rights() == before.spec_rights().spec_without(remove_base, remove_inheriting),
        !before.spec_permits(right),
    ensures
        !after.spec_permits(right),
{
    let b = before.spec_rights().base.bits;
    let r = remove_base.bits;
    assert(((b & !r) & right == right) ==> (b & right == right)) by (bit_vector);
}

} // verus!
