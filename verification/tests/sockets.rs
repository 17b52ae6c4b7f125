use wasi_sockets::addr::{FixedAddressPool, PortRange, RangedAddressPool};
use wasi_sockets::cidr::Cidr;
use wasi_sockets::handle::{Handle, OtherHandle};
use wasi_sockets::native;
use wasi_sockets::native::{Platform, RecvFlags, SendFlags, ShutdownMode, SockAddr};
use wasi_sockets::ossocket::{os_result, AttachedPool, OsSocket, RawOsSocket, SocketCall, Step};
use wasi_sockets::rights::{
    HandleRights, Rights, RIGHTS_SOCKET_ALL, RIGHTS_SOCK_BIND, RIGHTS_SOCK_CONNECT,
    RIGHTS_SOCK_OPEN,
};
use wasi_sockets::types::{
    Addr, AddrIp4, AddrIp4Port, AddrIp6, AddrIp6Port, AddressFamily, Errno, Filetype, Riflags,
    Sdflags, Siflags, SockType,
};

fn ip4(n0: u8, n1: u8, h0: u8, h1: u8, port: u16) -> Addr {
    Addr::Ip4(AddrIp4Port { addr: AddrIp4 { n0, n1, h0, h1 }, port })
}

fn ip6(g: [u16; 8], port: u16) -> Addr {
    Addr::Ip6(AddrIp6Port {
        addr: AddrIp6 { n0: g[0], n1: g[1], n2: g[2], n3: g[3], h0: g[4], h1: g[5], h2: g[6], h3: g[7] },
        port,
    })
}

fn all_socket_rights() -> HandleRights {
    HandleRights::new(Rights { bits: RIGHTS_SOCKET_ALL }, Rights { bits: RIGHTS_SOCKET_ALL })
}

fn socket_under(pool: FixedAddressPool, family: AddressFamily, fd: i32) -> OsSocket {
    let mut socket = OsSocket::new(
        family,
        SockType::SocketStream,
        AttachedPool::Fixed(pool),
        RawOsSocket::from_fd(fd),
    );
    socket.set_rights(all_socket_rights());
    socket
}

fn accepted_from(listener: &OsSocket, fd: i32) -> OsSocket {
    let platform = Platform::linux();
    let peer = SockAddr::from(&ip4(127, 0, 0, 1, 40000), &platform);
    listener.sock_accepted(Ok((fd, peer)), &platform).expect("a peer of a known family")
}

#[test]
fn bind_inside_the_pool_names_the_call() {
    let platform = Platform::linux();
    let addr = ip4(127, 0, 0, 1, 8080);
    let socket = socket_under(FixedAddressPool::new(addr), AddressFamily::Inet4, 5);
    assert_eq!(
        socket.sock_bind(&addr, &platform),
        Ok(SocketCall::Bind { fd: 5, addr: SockAddr::from(&addr, &platform) })
    );
    assert_eq!(
        socket.sock_connect(&addr, &platform),
        Ok(SocketCall::Connect { fd: 5, addr: SockAddr::from(&addr, &platform) })
    );
    assert_eq!(
        socket.sock_send_to(&addr, Siflags { bits: 0xffff }, &platform),
        Ok(SocketCall::SendTo {
            fd: 5,
            addr: SockAddr::from(&addr, &platform),
            flags: SendFlags { oob: false, dontroute: false },
        })
    );
}

#[test]
fn sock_bind_not_capable() {
    let platform = Platform::linux();
    let socket = socket_under(FixedAddressPool::new(ip4(127, 0, 0, 1, 8080)), AddressFamily::Inet4, 5);
    assert_eq!(socket.sock_bind(&ip4(127, 0, 0, 1, 9090), &platform), Err(Errno::Notcapable));
}

#[test]
fn sock_connect_not_capable() {
    let platform = Platform::linux();
    let socket = socket_under(FixedAddressPool::new(ip4(127, 0, 0, 1, 8080)), AddressFamily::Inet4, 5);
    assert_eq!(socket.sock_connect(&ip4(127, 0, 0, 1, 9090), &platform), Err(Errno::Notcapable));
    assert_eq!(socket.sock_connect(&ip4(127, 0, 0, 2, 8080), &platform), Err(Errno::Notcapable));
}

#[test]
fn sock_send_to_not_capable() {
    let platform = Platform::linux();
    let socket = socket_under(FixedAddressPool::new(ip4(127, 0, 0, 1, 8080)), AddressFamily::Inet4, 5);
    assert_eq!(
        socket.sock_send_to(&ip4(127, 0, 0, 1, 9090), Siflags { bits: 0 }, &platform),
        Err(Errno::Notcapable)
    );
}

#[test]
fn sock_bind_mismatch_af() {
    let platform = Platform::linux();
    let addr = ip4(127, 0, 0, 1, 9090);
    let socket = socket_under(FixedAddressPool::new(addr), AddressFamily::Inet6, 5);
    assert_eq!(socket.sock_bind(&addr, &platform), Err(Errno::Afnosupport));
    assert_eq!(socket.sock_connect(&addr, &platform), Err(Errno::Afnosupport));
    let six = ip6([0, 0, 0, 0, 0, 0, 0, 1], 9090);
    let socket = socket_under(FixedAddressPool::new(six), AddressFamily::Inet4, 5);
    assert_eq!(socket.sock_bind(&six, &platform), Err(Errno::Afnosupport));
}

#[test]
fn an_address_outside_the_pool_is_not_capable_whatever_its_family() {
    let platform = Platform::linux();
    let socket = socket_under(FixedAddressPool::new(ip4(127, 0, 0, 1, 8080)), AddressFamily::Inet6, 5);
    assert_eq!(socket.sock_bind(&ip4(127, 0, 0, 1, 9090), &platform), Err(Errno::Notcapable));
}

#[test]
fn a_socket_without_a_pool_reaches_nothing() {
    let platform = Platform::linux();
    let listener = socket_under(FixedAddressPool::new(ip4(127, 0, 0, 1, 8080)), AddressFamily::Inet4, 5);
    let accepted = accepted_from(&listener, 6);
    assert!(!accepted.has_addr_pool());
    for addr in [
        ip4(127, 0, 0, 1, 8080),
        ip4(0, 0, 0, 0, 0),
        ip4(255, 255, 255, 255, 65535),
        ip6([0, 0, 0, 0, 0, 0, 0, 1], 8080),
    ] {
        assert_eq!(accepted.sock_bind(&addr, &platform), Err(Errno::Notcapable));
        assert_eq!(accepted.sock_connect(&addr, &platform), Err(Errno::Notcapable));
        assert_eq!(
            accepted.sock_send_to(&addr, Siflags { bits: 0 }, &platform),
            Err(Errno::Notcapable)
        );
    }
}

#[test]
fn accept_does_not_pass_the_pool_on() {
    let platform = Platform::linux();
    let granted = ip4(127, 0, 0, 1, 8080);
    let listener = socket_under(FixedAddressPool::new(granted), AddressFamily::Inet4, 5);
    assert!(listener.sock_connect(&granted, &platform).is_ok());
    let accepted = accepted_from(&listener, 6);
    assert_eq!(accepted.as_raw_fd(), 6);
    assert_eq!(accepted.socket_type(), SockType::SocketStream);
    assert_eq!(accepted.address_family(), AddressFamily::Inet4);
    assert_eq!(accepted.get_rights(), listener.get_rights());
    assert_eq!(accepted.sock_connect(&granted, &platform), Err(Errno::Notcapable));
    assert!(accepted.sock_recv(Riflags { bits: 0 }).is_ok());
    assert!(accepted.sock_send(Siflags { bits: 0 }).is_ok());
}

#[test]
fn a_failed_accept_keeps_the_error_code() {
    let platform = Platform::linux();
    let listener = socket_under(FixedAddressPool::new(ip4(127, 0, 0, 1, 8080)), AddressFamily::Inet4, 5);
    assert_eq!(listener.sock_accepted(Err(11), &platform).err(), Some(Errno::Os(11)));
    let strange = SockAddr { family: 1, data: [0u8; 26], len: 2 };
    assert_eq!(listener.sock_accepted(Ok((6, strange)), &platform).err(), Some(Errno::Inval));
}

#[test]
fn unaddressed_operations_name_their_calls() {
    let platform = Platform::linux();
    let socket = socket_under(FixedAddressPool::new(ip4(127, 0, 0, 1, 8080)), AddressFamily::Inet4, 7);
    assert_eq!(socket.sock_listen(10), Ok(SocketCall::Listen { fd: 7, backlog: 10 }));
    assert_eq!(socket.sock_accept(), Ok(SocketCall::Accept { fd: 7 }));
    assert_eq!(
        socket.sock_recv(Riflags { bits: 1 }),
        Ok(SocketCall::Recv { fd: 7, flags: RecvFlags { oob: false, peek: true, wait_all: false } })
    );
    assert_eq!(
        socket.sock_recv_from(Riflags { bits: 2 }),
        Ok(SocketCall::RecvFrom { fd: 7, flags: RecvFlags { oob: false, peek: false, wait_all: true } })
    );
    assert_eq!(
        socket.sock_send(Siflags { bits: 1 }),
        Ok(SocketCall::Send { fd: 7, flags: SendFlags::empty() })
    );
    assert_eq!(socket.sock_addr_local(), Ok(SocketCall::SockName { fd: 7 }));
    assert_eq!(socket.sock_addr_remote(), Ok(SocketCall::PeerName { fd: 7 }));
    assert_eq!(socket.sock_set_reuse_addr(true), Ok(SocketCall::SetReuseAddr { fd: 7, reuse: true }));
    assert_eq!(socket.sock_get_reuse_addr(), Ok(SocketCall::GetReuseAddr { fd: 7 }));
    assert_eq!(socket.sock_set_recv_buf_size(4096), Ok(SocketCall::SetRecvBufSize { fd: 7, size: 4096 }));
    assert_eq!(socket.sock_get_recv_buf_size(), Ok(SocketCall::GetRecvBufSize { fd: 7 }));
    assert_eq!(socket.sock_set_send_buf_size(8192), Ok(SocketCall::SetSendBufSize { fd: 7, size: 8192 }));
    assert_eq!(socket.sock_get_send_buf_size(), Ok(SocketCall::GetSendBufSize { fd: 7 }));
    assert_eq!(
        socket.sock_set_reuse_port(true, &platform),
        Ok(Step::Call(SocketCall::SetReusePort { fd: 7, reuse: true }))
    );
    assert_eq!(
        socket.sock_get_reuse_port(&platform),
        Ok(Step::Call(SocketCall::GetReusePort { fd: 7 }))
    );
}

#[test]
fn backlog_is_cut_down_to_what_the_platform_takes() {
    let raw = RawOsSocket::from_fd(3);
    assert_eq!(raw.listen(0), SocketCall::Listen { fd: 3, backlog: 0 });
    assert_eq!(raw.listen(128), SocketCall::Listen { fd: 3, backlog: 128 });
    assert_eq!(raw.listen(0x7fff_ffff), SocketCall::Listen { fd: 3, backlog: i32::MAX });
    assert_eq!(raw.listen(0x8000_0000), SocketCall::Listen { fd: 3, backlog: i32::MAX });
    assert_eq!(raw.listen(u32::MAX), SocketCall::Listen { fd: 3, backlog: i32::MAX });
}

#[test]
fn shutdown_with_no_direction_fails_before_any_call() {
    let socket = socket_under(FixedAddressPool::new(ip4(127, 0, 0, 1, 8080)), AddressFamily::Inet4, 7);
    assert_eq!(socket.sock_shutdown(Sdflags { bits: 0 }), Err(Errno::Inval));
    assert_eq!(
        socket.sock_shutdown(Sdflags { bits: 1 }),
        Ok(SocketCall::Shutdown { fd: 7, how: ShutdownMode::Read })
    );
    assert_eq!(
        socket.sock_shutdown(Sdflags { bits: 2 }),
        Ok(SocketCall::Shutdown { fd: 7, how: ShutdownMode::Write })
    );
    assert_eq!(
        socket.sock_shutdown(Sdflags { bits: 3 }),
        Ok(SocketCall::Shutdown { fd: 7, how: ShutdownMode::Both })
    );
}

#[test]
fn port_reuse_is_a_quiet_success_where_unknown() {
    let socket = socket_under(FixedAddressPool::new(ip4(127, 0, 0, 1, 8080)), AddressFamily::Inet4, 7);
    let windows = Platform::windows();
    assert_eq!(socket.sock_set_reuse_port(true, &windows), Ok(Step::Done(())));
    assert_eq!(socket.sock_get_reuse_port(&windows), Ok(Step::Done(false)));
}

#[test]
fn receiving_from_anyone_gives_the_sender() {
    let platform = Platform::linux();
    let socket = socket_under(FixedAddressPool::new(ip4(127, 0, 0, 1, 8080)), AddressFamily::Inet4, 7);
    let stranger = ip4(203, 0, 113, 9, 5353);
    let sender = SockAddr::from(&stranger, &platform);
    assert_eq!(socket.sock_received_from(Ok((4, sender)), &platform), Ok((4, stranger)));
    assert_eq!(socket.sock_received_from(Err(104), &platform), Err(Errno::Os(104)));
    let strange = SockAddr { family: 99, data: [0u8; 26], len: 16 };
    assert_eq!(socket.sock_received_from(Ok((4, strange)), &platform), Err(Errno::Inval));
}

#[test]
fn local_address_is_read_back_as_it_was_bound() {
    let platform = Platform::linux();
    let addr = ip4(127, 0, 0, 1, 8080);
    let socket = socket_under(FixedAddressPool::new(addr), AddressFamily::Inet4, 7);
    let bound = match socket.sock_bind(&addr, &platform) {
        Ok(SocketCall::Bind { addr, .. }) => addr,
        other => panic!("no bind call: {:?}", other),
    };
    assert_eq!(socket.sock_address(Ok(bound), &platform), Ok(addr));
    assert_eq!(socket.sock_address(Err(107), &platform), Err(Errno::Os(107)));
}

#[test]
fn os_errors_keep_their_code() {
    assert_eq!(os_result::<u32>(Ok(7)), Ok(7));
    assert_eq!(os_result::<u32>(Err(98)), Err(Errno::Os(98)));
    assert_eq!(os_result::<()>(Err(-1)), Err(Errno::Os(-1)));
}

#[test]
fn raw_socket_owns_its_descriptor() {
    let raw = RawOsSocket::from_fd(12);
    assert_eq!(raw.as_raw_fd(), 12);
    assert_eq!(raw.try_clone(), SocketCall::Duplicate { fd: 12 });
    let copy = RawOsSocket::cloned(Ok(13)).expect("the call gave a descriptor");
    assert_eq!(copy.as_raw_fd(), 13);
    assert_eq!(RawOsSocket::cloned(Err(24)).err(), Some(Errno::Os(24)));
    assert_eq!(raw.into_raw_fd(), 12);
    assert_eq!(
        RawOsSocket::new(AddressFamily::Inet6, SockType::SocketDgram),
        SocketCall::Socket {
            family: native::AddressFamily::Inet6Addr,
            socket_type: native::SockType::Datagram,
            protocol: None,
        }
    );
    let platform = Platform::linux();
    let peer = SockAddr::from(&ip4(10, 1, 2, 3, 4), &platform);
    let (socket, addr) = RawOsSocket::accepted(9, &peer, &platform).expect("a known family");
    assert_eq!(socket.as_raw_fd(), 9);
    assert_eq!(addr, ip4(10, 1, 2, 3, 4));
    assert_eq!(RawOsSocket::address(&peer, &platform), Ok(ip4(10, 1, 2, 3, 4)));
    assert_eq!(RawOsSocket::received_from(3, &peer, &platform), Ok((3, ip4(10, 1, 2, 3, 4))));
}

#[test]
fn a_cloned_socket_keeps_pool_and_rights() {
    let platform = Platform::linux();
    let addr = ip4(127, 0, 0, 1, 8080);
    let socket = socket_under(FixedAddressPool::new(addr), AddressFamily::Inet4, 7);
    assert_eq!(socket.try_clone(), SocketCall::Duplicate { fd: 7 });
    let copy = socket.cloned(Ok(8)).expect("the call gave a descriptor");
    assert_eq!(copy.as_raw_fd(), 8);
    assert_eq!(socket.as_raw_fd(), 7);
    assert_eq!(copy.address_family(), AddressFamily::Inet4);
    assert_eq!(copy.socket_type(), SockType::SocketStream);
    assert_eq!(copy.get_rights(), socket.get_rights());
    assert_eq!(copy.get_file_type(), Filetype::SocketStream);
    assert!(copy.has_addr_pool());
    assert_eq!(
        copy.sock_bind(&addr, &platform),
        Ok(SocketCall::Bind { fd: 8, addr: SockAddr::from(&addr, &platform) })
    );
    assert_eq!(copy.sock_bind(&ip4(127, 0, 0, 1, 8081), &platform), Err(Errno::Notcapable));
    assert_eq!(socket.cloned(Err(24)).err(), Some(Errno::Os(24)));
}

#[test]
fn a_new_socket_has_no_rights() {
    let socket = OsSocket::new(
        AddressFamily::Inet4,
        SockType::SocketDgram,
        AttachedPool::Fixed(FixedAddressPool::new(ip4(127, 0, 0, 1, 0))),
        RawOsSocket::from_fd(3),
    );
    assert_eq!(socket.get_rights(), HandleRights::from_base(Rights::empty()));
    assert_eq!(socket.get_file_type(), Filetype::SocketDgram);
}

#[test]
fn sock_open_badf() {
    assert_eq!(
        Handle::sock_open(None, AddressFamily::Inet4, SockType::SocketStream),
        Err(Errno::Badf)
    );
}

#[test]
fn sock_open_notpool() {
    let every = HandleRights::new(Rights { bits: u64::MAX }, Rights { bits: u64::MAX });
    let stdin = Handle::Other(
        OtherHandle::new(Filetype::CharacterDevice, every).expect("a stream of another layer"),
    );
    assert_eq!(
        Handle::sock_open(Some(&stdin), AddressFamily::Inet4, SockType::SocketStream),
        Err(Errno::Inval)
    );
    assert_eq!(
        Handle::sock_opened(&stdin, AddressFamily::Inet4, SockType::SocketStream, Ok(4)).err(),
        Some(Errno::Inval)
    );
}

#[test]
fn sock_open_under_a_pool() {
    let platform = Platform::linux();
    let addr = ip4(127, 0, 0, 1, 0);
    let pool = Handle::FixedPool(FixedAddressPool::new(addr));
    assert_eq!(
        Handle::sock_open(Some(&pool), AddressFamily::Inet4, SockType::SocketStream),
        Ok(SocketCall::Socket {
            family: native::AddressFamily::InetAddr,
            socket_type: native::SockType::Stream,
            protocol: None,
        })
    );
    let socket = Handle::sock_opened(&pool, AddressFamily::Inet4, SockType::SocketStream, Ok(4))
        .expect("the call gave a descriptor");
    assert_eq!(socket.get_file_type(), Filetype::SocketStream);
    assert_eq!(socket.get_rights(), all_socket_rights());
    assert_eq!(
        socket.sock_bind(&addr, &platform),
        Ok(SocketCall::Bind { fd: 4, addr: SockAddr::from(&addr, &platform) })
    );
    assert_eq!(socket.sock_bind(&ip4(127, 0, 0, 1, 1), &platform), Err(Errno::Notcapable));
    assert_eq!(
        Handle::sock_opened(&pool, AddressFamily::Inet4, SockType::SocketStream, Err(24)).err(),
        Some(Errno::Os(24))
    );
}

#[test]
fn sock_open_needs_the_right() {
    let mut pool = Handle::FixedPool(FixedAddressPool::new(ip4(127, 0, 0, 1, 0)));
    pool.narrow_rights(Rights { bits: RIGHTS_SOCK_OPEN }, Rights::empty());
    assert_eq!(
        Handle::sock_open(Some(&pool), AddressFamily::Inet4, SockType::SocketStream),
        Err(Errno::Notcapable)
    );
}

#[test]
fn sock_open_under_a_ranged_pool() {
    let platform = Platform::linux();
    let cidr = Cidr::new_v4(AddrIp4 { n0: 10, n1: 0, h0: 0, h1: 0 }, 24).expect("prefix fits");
    let pool = Handle::RangedPool(RangedAddressPool::new(cidr, PortRange { start: 9000, end: 9100 }));
    let socket = Handle::sock_opened(&pool, AddressFamily::Inet4, SockType::SocketDgram, Ok(8))
        .expect("the call gave a descriptor");
    assert_eq!(socket.get_file_type(), Filetype::SocketDgram);
    assert!(socket.sock_connect(&ip4(10, 0, 0, 3, 9099), &platform).is_ok());
    assert_eq!(socket.sock_connect(&ip4(10, 0, 0, 3, 9100), &platform), Err(Errno::Notcapable));
    assert_eq!(socket.sock_connect(&ip4(10, 0, 1, 3, 9099), &platform), Err(Errno::Notcapable));
}

#[test]
fn operations_on_the_wrong_kind_are_not_supported() {
    let platform = Platform::linux();
    let addr = ip4(127, 0, 0, 1, 8080);
    let pool = Handle::FixedPool(FixedAddressPool::new(addr));
    assert_eq!(pool.sock_bind(&addr, &platform), Err(Errno::Notsup));
    assert_eq!(pool.sock_listen(1), Err(Errno::Notsup));
    assert_eq!(pool.sock_accept(), Err(Errno::Notsup));
    assert_eq!(pool.sock_recv(Riflags { bits: 0 }), Err(Errno::Notsup));
    assert_eq!(pool.sock_shutdown(Sdflags { bits: 3 }), Err(Errno::Notsup));
    assert_eq!(pool.sock_get_reuse_port(&platform), Err(Errno::Notsup));
    let every = HandleRights::new(Rights { bits: u64::MAX }, Rights { bits: u64::MAX });
    let file = Handle::Other(
        OtherHandle::new(Filetype::RegularFile, every).expect("a file of another layer"),
    );
    assert_eq!(file.sock_connect(&addr, &platform), Err(Errno::Notsup));
    assert_eq!(file.addr_pool_contains(&addr), Err(Errno::Notsup));
    assert_eq!(file.addr_pool_resolve(Ok(vec![addr])), Err(Errno::Notsup));
    assert!(!file.is_directory());
    let socket = Handle::sock_opened(&pool, AddressFamily::Inet4, SockType::SocketStream, Ok(4))
        .expect("the call gave a descriptor");
    assert_eq!(socket.addr_pool_contains(&addr), Err(Errno::Notsup));
}

#[test]
fn an_operation_needs_its_right() {
    let platform = Platform::linux();
    let addr = ip4(127, 0, 0, 1, 8080);
    let pool = Handle::FixedPool(FixedAddressPool::new(addr));
    let mut socket = Handle::sock_opened(&pool, AddressFamily::Inet4, SockType::SocketStream, Ok(4))
        .expect("the call gave a descriptor");
    assert!(socket.sock_bind(&addr, &platform).is_ok());
    socket.narrow_rights(Rights { bits: RIGHTS_SOCK_BIND }, Rights::empty());
    assert_eq!(socket.sock_bind(&addr, &platform), Err(Errno::Notcapable));
    assert!(socket.sock_connect(&addr, &platform).is_ok());
    assert_eq!(socket.check(RIGHTS_SOCK_BIND), Err(Errno::Notcapable));
    assert_eq!(socket.check(RIGHTS_SOCK_CONNECT), Ok(()));
    let narrowed = socket.get_rights();
    let mut wider = narrowed;
    wider.base.bits |= RIGHTS_SOCK_BIND;
    assert_eq!(socket.restrict_rights(wider), Err(Errno::Notcapable));
    assert_eq!(socket.get_rights(), narrowed);
    assert_eq!(socket.sock_bind(&addr, &platform), Err(Errno::Notcapable));
}

#[test]
fn accept_through_a_handle_gives_a_socket_without_a_pool() {
    let platform = Platform::linux();
    let addr = ip4(127, 0, 0, 1, 8080);
    let pool = Handle::FixedPool(FixedAddressPool::new(addr));
    let listener = Handle::sock_opened(&pool, AddressFamily::Inet4, SockType::SocketStream, Ok(4))
        .expect("the call gave a descriptor");
    let peer = SockAddr::from(&ip4(127, 0, 0, 1, 50000), &platform);
    let accepted = listener.sock_accepted(Ok((9, peer)), &platform).expect("a known family");
    assert_eq!(accepted.get_file_type(), Filetype::SocketStream);
    assert_eq!(accepted.get_rights(), listener.get_rights());
    assert_eq!(accepted.sock_connect(&addr, &platform), Err(Errno::Notcapable));
    assert_eq!(accepted.sock_send(Siflags { bits: 0 }), Ok(SocketCall::Send { fd: 9, flags: SendFlags::empty() }));
    match accepted.try_clone() {
        Step::Call(call) => assert_eq!(call, SocketCall::Duplicate { fd: 9 }),
        Step::Done(_) => panic!("a socket is cloned by a call"),
    }
    let copy = accepted.cloned(Ok(10)).expect("the call gave a descriptor");
    assert_eq!(copy.get_rights(), accepted.get_rights());
    assert_eq!(copy.sock_connect(&addr, &platform), Err(Errno::Notcapable));
    assert_eq!(copy.sock_send(Siflags { bits: 0 }), Ok(SocketCall::Send { fd: 10, flags: SendFlags::empty() }));
    assert_eq!(accepted.cloned(Err(24)).err(), Some(Errno::Os(24)));
}

#[test]
fn a_pool_handle_is_cloned_without_a_call() {
    let addr = ip4(127, 0, 0, 1, 8080);
    let pool = Handle::FixedPool(FixedAddressPool::new(addr));
    let copy = match pool.try_clone() {
        Step::Done(copy) => copy,
        Step::Call(call) => panic!("a pool has no descriptor: {:?}", call),
    };
    assert_eq!(copy.get_file_type(), Filetype::AddressPool);
    assert_eq!(copy.get_rights(), pool.get_rights());
    assert_eq!(copy.addr_pool_contains(&addr), Ok(true));
    assert_eq!(copy.addr_pool_contains(&ip4(127, 0, 0, 1, 8081)), Ok(false));
    assert_eq!(pool.cloned(Ok(5)).err(), Some(Errno::Notsup));
    let none = HandleRights::from_base(Rights::empty());
    let dir = Handle::Other(OtherHandle::new(Filetype::Directory, none).expect("another layer's"));
    match dir.try_clone() {
        Step::Done(copy) => {
            assert_eq!(copy.get_file_type(), Filetype::Directory);
            assert_eq!(copy.get_rights(), none);
        }
        Step::Call(call) => panic!("a directory has no descriptor here: {:?}", call),
    }
}

#[test]
fn resolving_through_a_handle() {
    let addr = ip4(127, 0, 0, 1, 8080);
    let mut pool = Handle::FixedPool(FixedAddressPool::new(addr));
    assert_eq!(pool.addr_pool_contains(&addr), Ok(true));
    assert_eq!(
        pool.addr_pool_resolve(Ok(vec![ip6([0, 0, 0, 0, 0, 0, 0, 1], 8080), addr])),
        Ok(vec![addr])
    );
    assert_eq!(pool.addr_pool_resolve(Err(Errno::Os(-3))), Err(Errno::Os(-3)));
    pool.set_rights(HandleRights::from_base(Rights::empty()));
    assert_eq!(pool.addr_pool_resolve(Ok(vec![addr])), Err(Errno::Notcapable));
}

#[test]
fn sockets_and_pools_have_handles_of_their_own() {
    let none = HandleRights::from_base(Rights::empty());
    assert_eq!(OtherHandle::new(Filetype::AddressPool, none), None);
    assert_eq!(OtherHandle::new(Filetype::SocketStream, none), None);
    assert_eq!(OtherHandle::new(Filetype::SocketDgram, none), None);
    let dir = OtherHandle::new(Filetype::Directory, none).expect("a directory of another layer");
    assert_eq!(dir.kind(), Filetype::Directory);
    assert_eq!(dir.rights(), none);
    assert!(Handle::Other(dir).is_directory());
}
