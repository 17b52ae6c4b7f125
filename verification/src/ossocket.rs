//! Sockets as capabilities.
//!
//! Nothing here touches the operating system. An operation on a socket
//! decides whether a native call may be made and says which one, with its
//! arguments ready; whoever owns the descriptors makes the call and hands
//! what came back to the function that reads it.

use vstd::prelude::*;
use crate::addr::{AddressFamilyCompatible, AddressPool, FixedAddressPool, RangedAddressPool};
use crate::codec::{spec_from_native, spec_recv_flags, spec_shutdown_mode, spec_to_native};
use crate::native;
use crate::native::{Platform, PlatformView, RecvFlags, SendFlags, ShutdownMode, SockAddr};
use crate::rights::{HandleRights, Rights};
use crate::types::{
    Addr, AddressFamily, Errno, Filetype, Riflags, Sdflags, Siflags, Size, SockType,
};

verus! {

/// One native socket call, with everything it needs but the data buffers.
#[allow(inconsistent_fields)]
#[derive(Clone, Copy, Debug, PartialEq, Eq)]
pub enum SocketCall {
    Socket {
        family: native::AddressFamily,
        socket_type: native::SockType,
        protocol: Option<native::SockProtocol>,
    },
    Bind { fd: i32, addr: SockAddr },
    Listen { fd: i32, backlog: i32 },
    Accept { fd: i32 },
    Connect { fd: i32, addr: SockAddr },
    Recv { fd: i32, flags: RecvFlags },
    RecvFrom { fd: i32, flags: RecvFlags },
    Send { fd: i32, flags: SendFlags },
    SendTo { fd: i32, addr: SockAddr, flags: SendFlags },
    Shutdown { fd: i32, how: ShutdownMode },
    SockName { fd: i32 },
    PeerName { fd: i32 },
    SetReuseAddr { fd: i32, reuse: bool },
    GetReuseAddr { fd: i32 },
    SetReusePort { fd: i32, reuse: bool },
    GetReusePort { fd: i32 },
    SetRecvBufSize { fd: i32, size: Size },
    GetRecvBufSize { fd: i32 },
    SetSendBufSize { fd: i32, size: Size },
    GetSendBufSize { fd: i32 },
    Duplicate { fd: i32 },
}

/// What an operation comes to where the platform may lack it: a call to
/// make, or the answer without any call.
#[derive(Debug, PartialEq, Eq)]
pub enum Step<T> {
    Call(SocketCall),
    Done(T),
}

/// The owner of one native socket descriptor.
#[derive(Debug)]
pub struct RawOsSocket(pub i32);

/// The address pool a socket is attached to.
#[derive(Debug)]
pub enum AttachedPool {
    Fixed(FixedAddressPool),
    Ranged(RangedAddressPool),
}

/// A socket together with what it is allowed to reach.
#[derive(Debug)]
pub struct OsSocket {
    socket_type: SockType,
    address_family: AddressFamily,
    rights: HandleRights,
    handle: RawOsSocket,
    addr_pool: Option<AttachedPool>,
}

/// The backlog handed to the platform: the guest's, cut down to the largest
/// number the platform can take.
pub open spec fn spec_backlog(backlog: u32) -> i32 {
    if backlog > i32::MAX {
        i32::MAX
    } else {
        backlog as i32
    }
}

/// What a failed native call becomes: the platform's error code, kept.
pub open spec fn spec_os_result<T>(result: Result<T, i32>) -> Result<T, Errno> {
    match result {
        Ok(value) => Ok(value),
        Err(code) => Err(Errno::Os(code)),
    }
}

/// What a native call came to, for the guest: its value, or the platform's
/// error code as it came.
pub fn os_result<T>(result: Result<T, i32>) -> (out: Result<T, Errno>)
    ensures
        out == spec_os_result(result),
{
    match result {
        Ok(value) => Ok(value),
        Err(code) => Err(Errno::Os(code)),
    }
}

impl RawOsSocket {
    /// The descriptor.
    pub fn as_raw_fd(&self) -> (fd: i32)
        ensures
            fd == self.0,
    {
        self.0
    }

    /// The descriptor, giving up the owner.
    pub fn into_raw_fd(self) -> (fd: i32)
        ensures
            fd == self.0,
    {
        self.0
    }

    /// The owner of the descriptor `raw`.
    pub fn from_fd(raw: i32) -> (socket: RawOsSocket)
        ensures
            socket.0 == raw,
    {
        RawOsSocket(raw)
    }

    /// The call that duplicates the descriptor: the platform gives a second
    /// descriptor for the same socket, which lives as long as either of the
    /// two is open.
    pub fn try_clone(&self) -> (call: SocketCall)
        ensures
            call == (SocketCall::Duplicate { fd: self.0 }),
    {
        SocketCall::Duplicate { fd: self.as_raw_fd() }
    }

    /// What a duplicate call gave: the owner of the new descriptor, or the
    /// platform's error code where the call failed.
    pub fn cloned(result: Result<i32, i32>) -> (copy: Result<RawOsSocket, Errno>)
        ensures
            match result {
                Ok(fd) => copy matches Ok(socket) && socket.0 == fd,
                Err(code) => copy matches Err(e) && e == Errno::Os(code),
            },
    {
        match result {
            Ok(fd) => Ok(RawOsSocket::from_fd(fd)),
            Err(code) => Err(Errno::Os(code)),
        }
    }

    /// The call that opens a socket of the given family and type, with the
    /// protocol left to the platform.
    pub fn new(address_family: AddressFamily, socket_type: SockType) -> (call: SocketCall)
        ensures
            call == (SocketCall::Socket {
                family: native::AddressFamily::spec_from(address_family),
                socket_type: native::SockType::spec_from(socket_type),
                protocol: None,
            }),
    {
        let family = native::AddressFamily::from(address_family);
        let socket_type = native::SockType::from(socket_type);
        SocketCall::Socket { family, socket_type, protocol: None }
    }

    /// The call that binds the socket to `addr`.
    pub fn bind(&self, addr: &Addr, platform: &Platform) -> (call: SocketCall)
        ensures
            call matches SocketCall::Bind { fd, addr: sa } && fd == self.0 && sa@
                == spec_to_native(*addr, platform@),
    {
        let addr = SockAddr::from(addr, platform);
        SocketCall::Bind { fd: self.as_raw_fd(), addr }
    }

    /// The call that makes the socket listen, with the backlog cut down to
    /// what the platform can take.
    pub fn listen(&self, backlog: u32) -> (call: SocketCall)
        ensures
            call == (SocketCall::Listen { fd: self.0, backlog: spec_backlog(backlog) }),
    {
        let backlog: i32 = if backlog > 0x7fff_ffff {
            0x7fff_ffff
        } else {
            backlog as i32
        };
        SocketCall::Listen { fd: self.as_raw_fd(), backlog }
    }

    /// The call that takes the next connection.
    pub fn accept(&self) -> (call: SocketCall)
        ensures
            call == (SocketCall::Accept { fd: self.0 }),
    {
        SocketCall::Accept { fd: self.as_raw_fd() }
    }

    /// What an accept call gave: the owner of the new descriptor and the
    /// peer's address, or an invalid-argument error where the peer's socket
    /// address is of no known family.
    pub fn accepted(fd: i32, peer: &SockAddr, platform: &Platform) -> (pair: Result<
        (RawOsSocket, Addr),
        Errno,
    >)
        ensures
            match spec_from_native(peer@, platform@) {
                Ok(addr) => pair matches Ok((socket, a)) && socket.0 == fd && a == addr,
                Err(e) => pair matches Err(f) && f == e,
            },
    {
        let socket = RawOsSocket::from_fd(fd);
        match Addr::try_from(peer, platform) {
            Ok(addr) => Ok((socket, addr)),
            Err(e) => Err(e),
        }
    }

    /// The call that connects the socket to `addr`.
    pub fn connect(&self, addr: &Addr, platform: &Platform) -> (call: SocketCall)
        ensures
            call matches SocketCall::Connect { fd, addr: sa } && fd == self.0 && sa@
                == spec_to_native(*addr, platform@),
    {
        let addr = SockAddr::from(addr, platform);
        SocketCall::Connect { fd: self.as_raw_fd(), addr }
    }

    /// The call that receives, with the guest's flags in the platform's
    /// terms.
    pub fn recv(&self, flags: Riflags) -> (call: SocketCall)
        ensures
            call == (SocketCall::Recv { fd: self.0, flags: spec_recv_flags(flags) }),
    {
        SocketCall::Recv { fd: self.as_raw_fd(), flags: RecvFlags::from(flags) }
    }

    /// The call that receives and reports the sender.
    pub fn recvfrom(&self, flags: Riflags) -> (call: SocketCall)
        ensures
            call == (SocketCall::RecvFrom { fd: self.0, flags: spec_recv_flags(flags) }),
    {
        SocketCall::RecvFrom { fd: self.as_raw_fd(), flags: RecvFlags::from(flags) }
    }

    /// What a receive-from call gave: the number of bytes and the sender's
    /// address, or an invalid-argument error where the sender's socket
    /// address is of no known family.
    pub fn received_from(size: usize, sender: &SockAddr, platform: &Platform) -> (pair: Result<
        (usize, Addr),
        Errno,
    >)
        ensures
            pair == match spec_from_native(sender@, platform@) {
                Ok(addr) => Ok::<(usize, Addr), Errno>((size, addr)),
                Err(e) => Err::<(usize, Addr), Errno>(e),
            },
    {
        match Addr::try_from(sender, platform) {
            Ok(addr) => Ok((size, addr)),
            Err(e) => Err(e),
        }
    }

    /// The call that shuts the socket down in the directions `how` names,
    /// or an invalid-argument error where it names none: then no call is
    /// made.
    pub fn shutdown(&self, how: Sdflags) -> (call: Result<SocketCall, Errno>)
        ensures
            call == match spec_shutdown_mode(how) {
                Ok(mode) => Ok::<SocketCall, Errno>(SocketCall::Shutdown { fd: self.0, how: mode }),
                Err(e) => Err::<SocketCall, Errno>(e),
            },
    {
        match ShutdownMode::try_from(how) {
            Ok(mode) => Ok(SocketCall::Shutdown { fd: self.as_raw_fd(), how: mode }),
            Err(e) => Err(e),
        }
    }

    /// The call that sends. The guest's flags are not handed on.
    pub fn send(&self, _flags: Siflags) -> (call: SocketCall)
        ensures
            call == (SocketCall::Send {
                fd: self.0,
                flags: SendFlags { oob: false, dontroute: false },
            }),
    {
        SocketCall::Send { fd: self.as_raw_fd(), flags: SendFlags::empty() }
    }

    /// The call that sends to `addr`. The guest's flags are not handed on.
    pub fn sendto(&self, addr: &Addr, _flags: Siflags, platform: &Platform) -> (call: SocketCall)
        ensures
            call matches SocketCall::SendTo { fd, addr: sa, flags } && fd == self.0 && sa@
                == spec_to_native(*addr, platform@) && flags == (SendFlags {
                oob: false,
                dontroute: false,
            }),
    {
        let addr = SockAddr::from(addr, platform);
        SocketCall::SendTo { fd: self.as_raw_fd(), addr, flags: SendFlags::empty() }
    }

    /// The call that asks for the socket's own address.
    pub fn addr_local(&self) -> (call: SocketCall)
        ensures
            call == (SocketCall::SockName { fd: self.0 }),
    {
        SocketCall::SockName { fd: self.as_raw_fd() }
    }

    /// The call that asks for the peer's address.
    pub fn addr_remote(&self) -> (call: SocketCall)
        ensures
            call == (SocketCall::PeerName { fd: self.0 }),
    {
        SocketCall::PeerName { fd: self.as_raw_fd() }
    }

    /// What an address query gave, read as a guest address.
    pub fn address(name: &SockAddr, platform: &Platform) -> (addr: Result<Addr, Errno>)
        ensures
            addr == spec_from_native(name@, platform@),
    {
        Addr::try_from(name, platform)
    }

    /// The call that sets address reuse.
    pub fn set_reuse_addr(&self, reuse: bool) -> (call: SocketCall)
        ensures
            call == (SocketCall::SetReuseAddr { fd: self.0, reuse }),
    {
        SocketCall::SetReuseAddr { fd: self.as_raw_fd(), reuse }
    }

    /// The call that reads address reuse.
    pub fn get_reuse_addr(&self) -> (call: SocketCall)
        ensures
            call == (SocketCall::GetReuseAddr { fd: self.0 }),
    {
        SocketCall::GetReuseAddr { fd: self.as_raw_fd() }
    }

    /// The call that sets port reuse; where the platform does not know port
    /// reuse, no call is made and the operation has succeeded.
    pub fn set_reuse_port(&self, reuse: bool, platform: &Platform) -> (step: Step<()>)
        ensures
            step == if platform@.reuse_port {
                Step::<()>::Call(SocketCall::SetReusePort { fd: self.0, reuse })
            } else {
                Step::<()>::Done(())
            },
    {
        if platform.reuse_port() {
            Step::Call(SocketCall::SetReusePort { fd: self.as_raw_fd(), reuse })
        } else {
            Step::Done(())
        }
    }

    /// The call that reads port reuse; where the platform does not know port
    /// reuse, no call is made and the answer is `false`.
    pub fn get_reuse_port(&self, platform: &Platform) -> (step: Step<bool>)
        ensures
            step == if platform@.reuse_port {
                Step::<bool>::Call(SocketCall::GetReusePort { fd: self.0 })
            } else {
                Step::<bool>::Done(false)
            },
    {
        if platform.reuse_port() {
            Step::Call(SocketCall::GetReusePort { fd: self.as_raw_fd() })
        } else {
            Step::Done(false)
        }
    }

    /// The call that sets the size of the receive buffer.
    pub fn set_recv_buf_size(&self, size: Size) -> (call: SocketCall)
        ensures
            call == (SocketCall::SetRecvBufSize { fd: self.0, size }),
    {
        SocketCall::SetRecvBufSize { fd: self.as_raw_fd(), size }
    }

    /// The call that reads the size of the receive buffer.
    pub fn get_recv_buf_size(&self) -> (call: SocketCall)
        ensures
            call == (SocketCall::GetRecvBufSize { fd: self.0 }),
    {
        SocketCall::GetRecvBufSize { fd: self.as_raw_fd() }
    }

    /// The call that sets the size of the send buffer.
    pub fn set_send_buf_size(&self, size: Size) -> (call: SocketCall)
        ensures
            call == (SocketCall::SetSendBufSize { fd: self.0, size }),
    {
        SocketCall::SetSendBufSize { fd: self.as_raw_fd(), size }
    }

    /// The call that reads the size of the send buffer.
    pub fn get_send_buf_size(&self) -> (call: SocketCall)
        ensures
            call == (SocketCall::GetSendBufSize { fd: self.0 }),
    {
        SocketCall::GetSendBufSize { fd: self.as_raw_fd() }
    }
}

impl AttachedPool {
    /// The rights the pool carries.
    pub open spec fn spec_rights(&self) -> HandleRights {
        match self {
            AttachedPool::Fixed(pool) => pool.spec_rights(),
            AttachedPool::Ranged(pool) => pool.spec_rights(),
        }
    }

    /// Whether `other` grants the same endpoints and carries the same rights.
    pub open spec fn spec_same(&self, other: &AttachedPool) -> bool {
        match (self, other) {
            (AttachedPool::Fixed(a), AttachedPool::Fixed(b)) => a.spec_addrs() == b.spec_addrs()
                && a.spec_rights() == b.spec_rights(),
            (AttachedPool::Ranged(a), AttachedPool::Ranged(b)) => a.spec_cidr() == b.spec_cidr()
                && a.spec_ports() == b.spec_ports() && a.spec_rights() == b.spec_rights(),
            _ => false,
        }
    }

    /// A second pool that grants the same endpoints with the same rights.
    pub fn copy(&self) -> (pool: AttachedPool)
        ensures
            self.spec_same(&pool),
    {
        match self {
            AttachedPool::Fixed(pool) => AttachedPool::Fixed(pool.copy()),
            AttachedPool::Ranged(pool) => AttachedPool::Ranged(*pool),
        }
    }

    /// A second pool that grants the same endpoints with the same rights. A
    /// pool holds no native resource, so this never fails.
    pub fn try_clone(&self) -> (copy: Result<AttachedPool, Errno>)
        ensures
            copy matches Ok(pool) && self.spec_same(&pool),
    {
        Ok(self.copy())
    }

    /// The rights the pool carries.
    pub fn get_rights(&self) -> (rights: HandleRights)
        ensures
            rights == self.spec_rights(),
    {
        match self {
            AttachedPool::Fixed(pool) => pool.get_rights(),
            AttachedPool::Ranged(pool) => pool.get_rights(),
        }
    }
}

impl AddressPool for AttachedPool {
    open spec fn spec_contains(&self, addr: Addr) -> bool {
        match self {
            AttachedPool::Fixed(pool) => pool.spec_contains(addr),
            AttachedPool::Ranged(pool) => pool.spec_contains(addr),
        }
    }

    fn addr_pool_contains(&self, addr: &Addr) -> (granted: Result<bool, Errno>) {
        match self {
            AttachedPool::Fixed(pool) => pool.addr_pool_contains(addr),
            AttachedPool::Ranged(pool) => pool.addr_pool_contains(addr),
        }
    }
}

/// Same endpoints, same answers: two pools that are the same grant the same
/// addresses.
pub proof fn lemma_same_pool_same_answers(a: AttachedPool, b: AttachedPool, addr: Addr)
    requires
        a.spec_same(&b),
    ensures
        a.spec_contains(addr) == b.spec_contains(addr),
{
}

impl OsSocket {
    /// Stream or datagram: fixed when the socket is made.
    pub closed spec fn spec_socket_type(&self) -> SockType {
        self.socket_type
    }

    /// The family the socket was opened for.
    pub closed spec fn spec_address_family(&self) -> AddressFamily {
        self.address_family
    }

    /// The rights the socket carries.
    pub closed spec fn spec_rights(&self) -> HandleRights {
        self.rights
    }

    /// The native descriptor.
    pub closed spec fn spec_fd(&self) -> i32 {
        self.handle.0
    }

    /// The pool the socket is attached to, if any.
    pub closed spec fn spec_addr_pool(&self) -> Option<AttachedPool> {
        self.addr_pool
    }

    /// Whether the socket may name `addr`: it has a pool, and the pool
    /// grants the address.
    pub open spec fn spec_grants(&self, addr: Addr) -> bool {
        self.spec_addr_pool() matches Some(pool) && pool.spec_contains(addr)
    }

    /// What stands between an address and a native call: the address must be
    /// granted by the socket's pool, else the socket is not capable; then it
    /// must belong to the socket's family.
    pub open spec fn spec_check_addr(&self, addr: Addr) -> Result<(), Errno> {
        if !self.spec_grants(addr) {
            Err(Errno::Notcapable)
        } else if !self.spec_address_family().spec_accepts(addr) {
            Err(Errno::Afnosupport)
        } else {
            Ok(())
        }
    }

    /// What binding to `addr` comes to: the error of the address check and no call,
    /// or the bind call on the socket's descriptor with `addr` as a socket
    /// address.
    pub open spec fn spec_bind_outcome(
        &self,
        addr: Addr,
        platform: PlatformView,
        call: Result<SocketCall, Errno>,
    ) -> bool {
        match self.spec_check_addr(addr) {
            Ok(_) => call matches Ok(SocketCall::Bind { fd, addr: sa }) && fd == self.spec_fd()
                && sa@ == spec_to_native(addr, platform),
            Err(e) => call matches Err(f) && f == e,
        }
    }

    /// What connecting to `addr` comes to: the error of the address check and no call,
    /// or the connect call on the socket's descriptor with `addr` as a socket
    /// address.
    pub open spec fn spec_connect_outcome(
        &self,
        addr: Addr,
        platform: PlatformView,
        call: Result<SocketCall, Errno>,
    ) -> bool {
        match self.spec_check_addr(addr) {
            Ok(_) => call matches Ok(SocketCall::Connect { fd, addr: sa }) && fd == self.spec_fd()
                && sa@ == spec_to_native(addr, platform),
            Err(e) => call matches Err(f) && f == e,
        }
    }

    /// What sending to `addr` comes to: the error of the address check and no call, or
    /// the send-to call on the socket's descriptor with `addr` as a socket
    /// address and no flags.
    pub open spec fn spec_send_to_outcome(
        &self,
        addr: Addr,
        platform: PlatformView,
        call: Result<SocketCall, Errno>,
    ) -> bool {
        match self.spec_check_addr(addr) {
            Ok(_) => call matches Ok(SocketCall::SendTo { fd, addr: sa, flags }) && fd
                == self.spec_fd() && sa@ == spec_to_native(addr, platform) && flags == (SendFlags {
                oob: false,
                dontroute: false,
            }),
            Err(e) => call matches Err(f) && f == e,
        }
    }

    /// What an accept call's result comes to: the platform's error code, an
    /// invalid-argument error for a peer address of no known family, or a
    /// socket over the new descriptor with this socket's type, family and
    /// rights and with no pool.
    pub open spec fn spec_accepted_outcome(
        &self,
        result: Result<(i32, SockAddr), i32>,
        platform: PlatformView,
        accepted: Result<OsSocket, Errno>,
    ) -> bool {
        match result {
            Err(code) => accepted matches Err(e) && e == Errno::Os(code),
            Ok((fd, peer)) => match spec_from_native(peer@, platform) {
                Err(e) => accepted matches Err(f) && f == e,
                Ok(_) => accepted matches Ok(socket) && socket.spec_fd() == fd
                    && socket.spec_socket_type() == self.spec_socket_type()
                    && socket.spec_address_family() == self.spec_address_family()
                    && socket.spec_rights() == self.spec_rights()
                    && socket.spec_addr_pool().is_none(),
            },
        }
    }

    /// Whether `copy` is a second owner of this socket over the descriptor
    /// `fd`: of the same type, family and rights, and attached to a pool
    /// exactly where this one is, granting the same.
    pub open spec fn spec_cloned(&self, copy: &OsSocket, fd: i32) -> bool {
        &&& copy.spec_socket_type() == self.spec_socket_type()
        &&& copy.spec_address_family() == self.spec_address_family()
        &&& copy.spec_rights() == self.spec_rights()
        &&& copy.spec_fd() == fd
        &&& match (self.spec_addr_pool(), copy.spec_addr_pool()) {
            (Some(a), Some(b)) => a.spec_same(&b),
            (None, None) => true,
            _ => false,
        }
    }

    /// The socket over the opened descriptor `handle`, attached to
    /// `addr_pool`, with no rights yet.
    pub fn new(
        address_family: AddressFamily,
        socket_type: SockType,
        addr_pool: AttachedPool,
        handle: RawOsSocket,
    ) -> (socket: OsSocket)
        ensures
            socket.spec_socket_type() == socket_type,
            socket.spec_address_family() == address_family,
            socket.spec_rights() == (HandleRights {
                base: Rights { bits: 0 },
                inheriting: Rights { bits: 0 },
            }),
            socket.spec_fd() == handle.0,
            socket.spec_addr_pool() == Some(addr_pool),
    {
        let rights = HandleRights::from_base(Rights::empty());
        OsSocket { socket_type, address_family, rights, handle, addr_pool: Some(addr_pool) }
    }

    /// The call that duplicates the socket's descriptor, the first step of
    /// making a second owner of the socket.
    pub fn try_clone(&self) -> (call: SocketCall)
        ensures
            call == (SocketCall::Duplicate { fd: self.spec_fd() }),
    {
        self.handle.try_clone()
    }

    /// The second owner that a duplicate call gave: over the new descriptor,
    /// of this socket's type, family and rights, attached to a pool that
    /// grants the same. Where the call failed, the platform's error code.
    pub fn cloned(&self, result: Result<i32, i32>) -> (copy: Result<OsSocket, Errno>)
        ensures
            match result {
                Ok(fd) => copy matches Ok(socket) && self.spec_cloned(&socket, fd),
                Err(code) => copy matches Err(e) && e == Errno::Os(code),
            },
    {
        let handle = match RawOsSocket::cloned(result) {
            Ok(handle) => handle,
            Err(e) => {
                return Err(e);
            },
        };
        let addr_pool = match &self.addr_pool {
            Some(pool) => Some(pool.copy()),
            None => None,
        };
        Ok(
            OsSocket {
                socket_type: self.socket_type,
                address_family: self.address_family,
                rights: self.rights,
                handle,
                addr_pool,
            },
        )
    }

    /// The resource kind: a stream socket or a datagram socket.
    pub fn get_file_type(&self) -> (kind: Filetype)
        ensures
            kind == Filetype::spec_from(self.spec_socket_type()),
    {
        Filetype::from(self.socket_type)
    }

    /// The rights the socket carries.
    pub fn get_rights(&self) -> (rights: HandleRights)
        ensures
            rights == self.spec_rights(),
    {
        self.rights
    }

    /// Gives the socket the rights `new_rights`; nothing else changes.
    pub fn set_rights(&mut self, new_rights: HandleRights)
        ensures
            final(self).spec_rights() == new_rights,
            final(self).spec_socket_type() == old(self).spec_socket_type(),
            final(self).spec_address_family() == old(self).spec_address_family(),
            final(self).spec_fd() == old(self).spec_fd(),
            final(self).spec_addr_pool() == old(self).spec_addr_pool(),
    {
        self.rights = new_rights;
    }

    /// The family the socket was opened for.
    pub fn address_family(&self) -> (family: AddressFamily)
        ensures
            family == self.spec_address_family(),
    {
        self.address_family
    }

    /// Stream or datagram.
    pub fn socket_type(&self) -> (socket_type: SockType)
        ensures
            socket_type == self.spec_socket_type(),
    {
        self.socket_type
    }

    /// The native descriptor.
    pub fn as_raw_fd(&self) -> (fd: i32)
        ensures
            fd == self.spec_fd(),
    {
        self.handle.as_raw_fd()
    }

    /// Whether the socket is attached to a pool.
    pub fn has_addr_pool(&self) -> (attached: bool)
        ensures
            attached == self.spec_addr_pool().is_some(),
    {
        self.addr_pool.is_some()
    }

    /// Whether a native call may be made with `addr`.
    pub fn check_addr(&self, addr: &Addr) -> (pass: Result<(), Errno>)
        ensures
            pass == self.spec_check_addr(*addr),
    {
        let granted = match &self.addr_pool {
            Some(pool) => match pool.addr_pool_contains(addr) {
                Ok(granted) => granted,
                Err(e) => {
                    return Err(e);
                },
            },
            None => false,
        };
        if !granted {
            Err(Errno::Notcapable)
        } else if !self.address_family.accepts(addr) {
            Err(Errno::Afnosupport)
        } else {
            Ok(())
        }
    }

    /// The call that connects the socket to `addr`, where the socket's pool
    /// grants the address and the address is of the socket's family;
    /// otherwise the error, and no call.
    pub fn sock_connect(&self, addr: &Addr, platform: &Platform) -> (call: Result<
        SocketCall,
        Errno,
    >)
        ensures
            self.spec_connect_outcome(*addr, platform@, call),
    {
        match self.check_addr(addr) {
            Err(e) => Err(e),
            Ok(_) => Ok(self.handle.connect(addr, platform)),
        }
    }

    /// The call that binds the socket to `addr`, where the socket's pool
    /// grants the address and the address is of the socket's family;
    /// otherwise the error, and no call.
    pub fn sock_bind(&self, addr: &Addr, platform: &Platform) -> (call: Result<SocketCall, Errno>)
        ensures
            self.spec_bind_outcome(*addr, platform@, call),
    {
        match self.check_addr(addr) {
            Err(e) => Err(e),
            Ok(_) => Ok(self.handle.bind(addr, platform)),
        }
    }

    /// The call that sends to `addr`, where the socket's pool grants the
    /// address and the address is of the socket's family; otherwise the
    /// error, and no call.
    pub fn sock_send_to(&self, addr: &Addr, flags: Siflags, platform: &Platform) -> (call: Result<
        SocketCall,
        Errno,
    >)
        ensures
            self.spec_send_to_outcome(*addr, platform@, call),
    {
        match self.check_addr(addr) {
            Err(e) => Err(e),
            Ok(_) => Ok(self.handle.sendto(addr, flags, platform)),
        }
    }

    /// The call that makes the socket listen. No address is named, so none is checked.
    pub fn sock_listen(&self, backlog: u32) -> (call: Result<SocketCall, Errno>)
        ensures
            call == Ok::<SocketCall, Errno>(
                SocketCall::Listen { fd: self.spec_fd(), backlog: spec_backlog(backlog) },
            ),
    {
        Ok(self.handle.listen(backlog))
    }

    /// The call that takes the next connection. No address is named, so none is checked.
    pub fn sock_accept(&self) -> (call: Result<SocketCall, Errno>)
        ensures
            call == Ok::<SocketCall, Errno>(SocketCall::Accept { fd: self.spec_fd() }),
    {
        Ok(self.handle.accept())
    }

    /// The socket of a connection that an accept call gave: of the listening
    /// socket's type, family and rights, over the descriptor that the call
    /// made for the connection, of which it is the only owner, and attached
    /// to no pool. A failed call keeps the platform's error code; a peer
    /// address of no known family is an invalid argument.
    pub fn sock_accepted(&self, result: Result<(i32, SockAddr), i32>, platform: &Platform) -> (accepted:
        Result<OsSocket, Errno>)
        ensures
            self.spec_accepted_outcome(result, platform@, accepted),
    {
        let (fd, peer) = match result {
            Ok(pair) => pair,
            Err(code) => {
                return Err(Errno::Os(code));
            },
        };
        let (raw_socket, _addr) = match RawOsSocket::accepted(fd, &peer, platform) {
            Ok(pair) => pair,
            Err(e) => {
                return Err(e);
            },
        };
        let rights = self.get_rights();
        Ok(
            OsSocket {
                socket_type: self.socket_type,
                address_family: self.address_family,
                rights,
                handle: raw_socket,
                addr_pool: None,
            },
        )
    }

    /// The call that shuts the socket down, or an invalid-argument error
    /// where `how` names no direction.
    pub fn sock_shutdown(&self, how: Sdflags) -> (call: Result<SocketCall, Errno>)
        ensures
            call == match spec_shutdown_mode(how) {
                Ok(mode) => Ok::<SocketCall, Errno>(
                    SocketCall::Shutdown { fd: self.spec_fd(), how: mode },
                ),
                Err(e) => Err::<SocketCall, Errno>(e),
            },
    {
        self.handle.shutdown(how)
    }

    /// The call that receives. No address is named, so none is checked.
    pub fn sock_recv(&self, flags: Riflags) -> (call: Result<SocketCall, Errno>)
        ensures
            call == Ok::<SocketCall, Errno>(
                SocketCall::Recv { fd: self.spec_fd(), flags: spec_recv_flags(flags) },
            ),
    {
        Ok(self.handle.recv(flags))
    }

    /// The call that receives and reports the sender. Receiving is not
    /// checked against the pool: anyone may send to the socket.
    pub fn sock_recv_from(&self, flags: Riflags) -> (call: Result<SocketCall, Errno>)
        ensures
            call == Ok::<SocketCall, Errno>(
                SocketCall::RecvFrom { fd: self.spec_fd(), flags: spec_recv_flags(flags) },
            ),
    {
        Ok(self.handle.recvfrom(flags))
    }

    /// What a receive-from call gave, for the guest: the number of bytes and
    /// the sender's address, whether or not the socket's pool grants it.
    pub fn sock_received_from(
        &self,
        result: Result<(usize, SockAddr), i32>,
        platform: &Platform,
    ) -> (pair: Result<(usize, Addr), Errno>)
        ensures
            pair == match result {
                Err(code) => Err::<(usize, Addr), Errno>(Errno::Os(code)),
                Ok((size, sender)) => match spec_from_native(sender@, platform@) {
                    Ok(addr) => Ok::<(usize, Addr), Errno>((size, addr)),
                    Err(e) => Err::<(usize, Addr), Errno>(e),
                },
            },
    {
        match result {
            Err(code) => Err(Errno::Os(code)),
            Ok((size, sender)) => RawOsSocket::received_from(size, &sender, platform),
        }
    }

    /// The call that sends. No address is named, so none is checked.
    pub fn sock_send(&self, flags: Siflags) -> (call: Result<SocketCall, Errno>)
        ensures
            call == Ok::<SocketCall, Errno>(
                SocketCall::Send { fd: self.spec_fd(), flags: SendFlags { oob: false, dontroute: false } },
            ),
    {
        Ok(self.handle.send(flags))
    }

    /// The call that asks for the socket's own address.
    pub fn sock_addr_local(&self) -> (call: Result<SocketCall, Errno>)
        ensures
            call == Ok::<SocketCall, Errno>(SocketCall::SockName { fd: self.spec_fd() }),
    {
        Ok(self.handle.addr_local())
    }

    /// The call that asks for the peer's address.
    pub fn sock_addr_remote(&self) -> (call: Result<SocketCall, Errno>)
        ensures
            call == Ok::<SocketCall, Errno>(SocketCall::PeerName { fd: self.spec_fd() }),
    {
        Ok(self.handle.addr_remote())
    }

    /// What an address query gave, for the guest: the address, the
    /// platform's error code, or an invalid-argument error for a socket
    /// address of no known family.
    pub fn sock_address(&self, result: Result<SockAddr, i32>, platform: &Platform) -> (addr: Result<
        Addr,
        Errno,
    >)
        ensures
            addr == match result {
                Err(code) => Err::<Addr, Errno>(Errno::Os(code)),
                Ok(name) => spec_from_native(name@, platform@),
            },
    {
        match result {
            Err(code) => Err(Errno::Os(code)),
            Ok(name) => RawOsSocket::address(&name, platform),
        }
    }

    /// The call that sets address reuse.
    pub fn sock_set_reuse_addr(&self, reuse: bool) -> (call: Result<SocketCall, Errno>)
        ensures
            call == Ok::<SocketCall, Errno>(SocketCall::SetReuseAddr { fd: self.spec_fd(), reuse }),
    {
        Ok(self.handle.set_reuse_addr(reuse))
    }

    /// The call that reads address reuse.
    pub fn sock_get_reuse_addr(&self) -> (call: Result<SocketCall, Errno>)
        ensures
            call == Ok::<SocketCall, Errno>(SocketCall::GetReuseAddr { fd: self.spec_fd() }),
    {
        Ok(self.handle.get_reuse_addr())
    }

    /// The call that sets port reuse, or success without a call where the
    /// platform does not know port reuse.
    pub fn sock_set_reuse_port(&self, reuse: bool, platform: &Platform) -> (step: Result<
        Step<()>,
        Errno,
    >)
        ensures
            step == Ok::<Step<()>, Errno>(
                if platform@.reuse_port {
                    Step::<()>::Call(SocketCall::SetReusePort { fd: self.spec_fd(), reuse })
                } else {
                    Step::<()>::Done(())
                },
            ),
    {
        Ok(self.handle.set_reuse_port(reuse, platform))
    }

    /// The call that reads port reuse, or `false` without a call where the
    /// platform does not know port reuse.
    pub fn sock_get_reuse_port(&self, platform: &Platform) -> (step: Result<Step<bool>, Errno>)
        ensures
            step == Ok::<Step<bool>, Errno>(
                if platform@.reuse_port {
                    Step::<bool>::Call(SocketCall::GetReusePort { fd: self.spec_fd() })
                } else {
                    Step::<bool>::Done(false)
                },
            ),
    {
        Ok(self.handle.get_reuse_port(platform))
    }

    /// The call that sets the size of the receive buffer.
    pub fn sock_set_recv_buf_size(&self, size: Size) -> (call: Result<SocketCall, Errno>)
        ensures
            call == Ok::<SocketCall, Errno>(
                SocketCall::SetRecvBufSize { fd: self.spec_fd(), size },
            ),
    {
        Ok(self.handle.set_recv_buf_size(size))
    }

    /// The call that reads the size of the receive buffer.
    pub fn sock_get_recv_buf_size(&self) -> (call: Result<SocketCall, Errno>)
        ensures
            call == Ok::<SocketCall, Errno>(SocketCall::GetRecvBufSize { fd: self.spec_fd() }),
    {
        Ok(self.handle.get_recv_buf_size())
    }

    /// The call that sets the size of the send buffer.
    pub fn sock_set_send_buf_size(&self, size: Size) -> (call: Result<SocketCall, Errno>)
        ensures
            call == Ok::<SocketCall, Errno>(
                SocketCall::SetSendBufSize { fd: self.spec_fd(), size },
            ),
    {
        Ok(self.handle.set_send_buf_size(size))
    }

    /// The call that reads the size of the send buffer.
    pub fn sock_get_send_buf_size(&self) -> (call: Result<SocketCall, Errno>)
        ensures
            call == Ok::<SocketCall, Errno>(SocketCall::GetSendBufSize { fd: self.spec_fd() }),
    {
        Ok(self.handle.get_send_buf_size())
    }
}

/// A socket without a pool reaches nothing: whatever the address, binding,
/// connecting and sending to it are refused as not capable, and no native
/// call is named.
pub proof fn lemma_no_pool_not_capable(socket: OsSocket, addr: Addr, platform: PlatformView)
    requires
        socket.spec_addr_pool().is_none(),
    ensures
        socket.spec_check_addr(addr) == Err::<(), Errno>(Errno::Notcapable),
        forall|call: Result<SocketCall, Errno>| #[trigger]
            socket.spec_bind_outcome(addr, platform, call) ==> call == Err::<SocketCall, Errno>(
                Errno::Notcapable,
            ),
        forall|call: Result<SocketCall, Errno>| #[trigger]
            socket.spec_connect_outcome(addr, platform, call) ==> call == Err::<
                SocketCall,
                Errno,
            >(Errno::Notcapable),
        forall|call: Result<SocketCall, Errno>| #[trigger]
            socket.spec_send_to_outcome(addr, platform, call) ==> call == Err::<
                SocketCall,
                Errno,
            >(Errno::Notcapable),
{
}

/// An address that the socket's pool does not grant is refused as not
/// capable, whatever its family, and no native call is named.
pub proof fn lemma_outside_pool_not_capable(socket: OsSocket, addr: Addr, platform: PlatformView)
    requires
        !socket.spec_grants(addr),
    ensures
        socket.spec_check_addr(addr) == Err::<(), Errno>(Errno::Notcapable),
        forall|call: Result<SocketCall, Errno>| #[trigger]
            socket.spec_bind_outcome(addr, platform, call) ==> call == Err::<SocketCall, Errno>(
                Errno::Notcapable,
            ),
        forall|call: Result<SocketCall, Errno>| #[trigger]
            socket.spec_connect_outcome(addr, platform, call) ==> call == Err::<
                SocketCall,
                Errno,
            >(Errno::Notcapable),
        forall|call: Result<SocketCall, Errno>| #[trigger]
            socket.spec_send_to_outcome(addr, platform, call) ==> call == Err::<
                SocketCall,
                Errno,
            >(Errno::Notcapable),
{
}

/// A native call is named only for an address that the socket's pool
/// grants: whenever binding, connecting or sending to an address comes to a
/// call, the pool holds the address and the address is of the socket's
/// family.
pub proof fn lemma_call_only_within_pool(
    socket: OsSocket,
    addr: Addr,
    platform: PlatformView,
    call: Result<SocketCall, Errno>,
)
    requires
        socket.spec_bind_outcome(addr, platform, call) || socket.spec_connect_outcome(
            addr,
            platform,
            call,
        ) || socket.spec_send_to_outcome(addr, platform, call),
        call.is_ok(),
    ensures
        socket.spec_grants(addr),
        addr.spec_family() == socket.spec_address_family(),
{
}

/// The address check passes exactly the addresses that the pool grants and
/// that are of the socket's family.
pub proof fn lemma_check_passes(socket: OsSocket, addr: Addr)
    ensures
        socket.spec_check_addr(addr).is_ok() <==> (socket.spec_grants(addr)
            && addr.spec_family() == socket.spec_address_family()),
{
}

/// A granted address of the wrong family is refused as a family mismatch,
/// not as an invalid argument: binding an IPv4 address on a socket that was
/// opened for IPv6 names no call.
pub proof fn lemma_family_mismatch(socket: OsSocket, addr: Addr, platform: PlatformView)
    requires
        socket.spec_grants(addr),
        addr.spec_family() != socket.spec_address_family(),
    ensures
        socket.spec_check_addr(addr) == Err::<(), Errno>(Errno::Afnosupport),
        forall|call: Result<SocketCall, Errno>| #[trigger]
            socket.spec_bind_outcome(addr, platform, call) ==> call == Err::<SocketCall, Errno>(
                Errno::Afnosupport,
            ),
{
}

/// A second owner reaches what the first reaches: a duplicated socket
/// passes and refuses the same addresses as the socket it was made from,
/// whatever descriptor the platform gave it.
pub proof fn lemma_clone_reaches_the_same(socket: OsSocket, copy: OsSocket, fd: i32, addr: Addr)
    requires
        socket.spec_cloned(&copy, fd),
    ensures
        copy.spec_check_addr(addr) == socket.spec_check_addr(addr),
        copy.spec_fd() == fd,
{
}

/// A pool does not pass through accept: the socket of an accepted
/// connection has no pool, and connecting it to any address is refused as
/// not capable, even to an address that the listening socket's pool grants.
pub proof fn lemma_accept_does_not_pass_the_pool_on(
    listener: OsSocket,
    result: Result<(i32, SockAddr), i32>,
    platform: PlatformView,
    accepted: OsSocket,
    addr: Addr,
    call: Result<SocketCall, Errno>,
)
    requires
        listener.spec_accepted_outcome(result, platform, Ok(accepted)),
        accepted.spec_connect_outcome(addr, platform, call),
    ensures
        accepted.spec_addr_pool().is_none(),
        accepted.spec_rights() == listener.spec_rights(),
        call == Err::<SocketCall, Errno>(Errno::Notcapable),
{
}

} // verus!
