use wasi_sockets::addr::{
    addr_pool_resolve, AddressFamilyCompatible, AddressPool, FixedAddressPool, PortRange,
    RangedAddressPool,
};
use wasi_sockets::cidr::{Cidr, Network};
use wasi_sockets::rights::{RIGHTS_ADDRESS_POOL_ALL, RIGHTS_SOCKET_ALL};
use wasi_sockets::types::{
    Addr, AddrIp4, AddrIp4Port, AddrIp6, AddrIp6Port, AddressFamily, Errno, Filetype,
};

fn ip4(n0: u8, n1: u8, h0: u8, h1: u8, port: u16) -> Addr {
    Addr::Ip4(AddrIp4Port { addr: AddrIp4 { n0, n1, h0, h1 }, port })
}

fn groups(g: [u16; 8]) -> AddrIp6 {
    AddrIp6 { n0: g[0], n1: g[1], n2: g[2], n3: g[3], h0: g[4], h1: g[5], h2: g[6], h3: g[7] }
}

fn ip6(g: [u16; 8], port: u16) -> Addr {
    Addr::Ip6(AddrIp6Port { addr: groups(g), port })
}

fn slash(n0: u8, n1: u8, h0: u8, h1: u8, prefix_len: u8) -> Cidr {
    Cidr::new_v4(AddrIp4 { n0, n1, h0, h1 }, prefix_len).expect("prefix fits")
}

#[test]
fn fixed_pool_grants_its_endpoint_only() {
    let pool = FixedAddressPool::new(ip4(127, 0, 0, 1, 8080));
    assert_eq!(pool.addr_pool_contains(&ip4(127, 0, 0, 1, 8080)), Ok(true));
    assert_eq!(pool.addr_pool_contains(&ip4(127, 0, 0, 1, 8081)), Ok(false));
    assert_eq!(pool.addr_pool_contains(&ip4(127, 0, 0, 1, 0)), Ok(false));
    assert_eq!(pool.addr_pool_contains(&ip4(127, 0, 0, 2, 8080)), Ok(false));
    assert_eq!(pool.addr_pool_contains(&ip4(10, 0, 0, 1, 8080)), Ok(false));
    assert_eq!(pool.addr_pool_contains(&ip6([0, 0, 0, 0, 0, 0, 0, 1], 8080)), Ok(false));
}

#[test]
fn fixed_pool_of_several_endpoints() {
    let pool = FixedAddressPool::from_addrs(vec![
        ip4(127, 0, 0, 1, 8080),
        ip6([0, 0, 0, 0, 0, 0, 0, 1], 8080),
    ]);
    assert_eq!(pool.addr_pool_contains(&ip4(127, 0, 0, 1, 8080)), Ok(true));
    assert_eq!(pool.addr_pool_contains(&ip6([0, 0, 0, 0, 0, 0, 0, 1], 8080)), Ok(true));
    assert_eq!(pool.addr_pool_contains(&ip6([0, 0, 0, 0, 0, 0, 0, 2], 8080)), Ok(false));
    let empty = FixedAddressPool::from_addrs(vec![]);
    assert_eq!(empty.addr_pool_contains(&ip4(127, 0, 0, 1, 8080)), Ok(false));
}

#[test]
fn ranged_pool_grants_subnet_and_port_range() {
    let pool = RangedAddressPool::new(slash(10, 0, 0, 0, 24), PortRange { start: 9000, end: 9100 });
    assert_eq!(pool.addr_pool_contains(&ip4(10, 0, 0, 0, 9000)), Ok(true));
    assert_eq!(pool.addr_pool_contains(&ip4(10, 0, 0, 255, 9099)), Ok(true));
    assert_eq!(pool.addr_pool_contains(&ip4(10, 0, 0, 17, 9050)), Ok(true));
    assert_eq!(pool.addr_pool_contains(&ip4(10, 0, 0, 17, 9100)), Ok(false));
    assert_eq!(pool.addr_pool_contains(&ip4(10, 0, 0, 17, 8999)), Ok(false));
    assert_eq!(pool.addr_pool_contains(&ip4(10, 0, 1, 0, 9050)), Ok(false));
    assert_eq!(pool.addr_pool_contains(&ip4(9, 255, 255, 255, 9050)), Ok(false));
    assert_eq!(pool.addr_pool_contains(&ip4(11, 0, 0, 1, 9050)), Ok(false));
    assert_eq!(pool.addr_pool_contains(&ip6([10, 0, 0, 0, 0, 0, 0, 0], 9050)), Ok(false));
}

#[test]
fn ranged_pool_with_an_empty_port_range_grants_nothing() {
    let pool = RangedAddressPool::new(slash(10, 0, 0, 0, 8), PortRange { start: 80, end: 80 });
    assert_eq!(pool.addr_pool_contains(&ip4(10, 1, 2, 3, 80)), Ok(false));
    let pool = RangedAddressPool::new(slash(10, 0, 0, 0, 8), PortRange { start: 90, end: 80 });
    assert_eq!(pool.addr_pool_contains(&ip4(10, 1, 2, 3, 85)), Ok(false));
}

#[test]
fn network_membership_follows_the_prefix() {
    let all = slash(1, 2, 3, 4, 0);
    assert!(all.contains(&ip4(0, 0, 0, 0, 1)));
    assert!(all.contains(&ip4(255, 255, 255, 255, 1)));
    let one = slash(192, 168, 1, 7, 32);
    assert!(one.contains(&ip4(192, 168, 1, 7, 1)));
    assert!(!one.contains(&ip4(192, 168, 1, 6, 1)));
    assert!(!one.contains(&ip4(192, 168, 1, 8, 1)));
    let odd = slash(172, 16, 0, 0, 12);
    assert!(odd.contains(&ip4(172, 16, 0, 0, 1)));
    assert!(odd.contains(&ip4(172, 31, 255, 255, 1)));
    assert!(!odd.contains(&ip4(172, 32, 0, 0, 1)));
    assert!(!odd.contains(&ip4(172, 15, 255, 255, 1)));
    let host_bits_set = slash(10, 0, 0, 77, 24);
    assert!(host_bits_set.contains(&ip4(10, 0, 0, 1, 1)));
    assert!(!host_bits_set.contains(&ip4(10, 0, 1, 77, 1)));
}

#[test]
fn ipv6_network_membership_follows_the_prefix() {
    let net = Cidr::new_v6(groups([0xfd00, 0x1234, 0, 0, 0, 0, 0, 0]), 32).expect("prefix fits");
    assert!(net.contains(&ip6([0xfd00, 0x1234, 0, 0, 0, 0, 0, 1], 1)));
    assert!(net.contains(&ip6([0xfd00, 0x1234, 0xffff, 0xffff, 0xffff, 0xffff, 0xffff, 0xffff], 1)));
    assert!(!net.contains(&ip6([0xfd00, 0x1235, 0, 0, 0, 0, 0, 0], 1)));
    assert!(!net.contains(&ip6([0xfd01, 0x1234, 0, 0, 0, 0, 0, 0], 1)));
    assert!(!net.contains(&ip4(253, 0, 18, 52, 1)));
    let all = Cidr::new_v6(groups([0; 8]), 0).expect("prefix fits");
    assert!(all.contains(&ip6([0xffff; 8], 1)));
    let one = Cidr::new_v6(groups([0, 0, 0, 0, 0, 0, 0, 1]), 128).expect("prefix fits");
    assert!(one.contains(&ip6([0, 0, 0, 0, 0, 0, 0, 1], 1)));
    assert!(!one.contains(&ip6([0, 0, 0, 0, 0, 0, 0, 0], 1)));
    assert!(!one.contains(&ip6([0, 0, 0, 0, 0, 0, 0, 2], 1)));
}

#[test]
fn a_prefix_longer_than_an_address_is_no_network() {
    assert_eq!(Cidr::new_v4(AddrIp4 { n0: 10, n1: 0, h0: 0, h1: 0 }, 33), None);
    assert!(Cidr::new_v4(AddrIp4 { n0: 10, n1: 0, h0: 0, h1: 0 }, 32).is_some());
    assert_eq!(Cidr::new_v6(groups([0; 8]), 129), None);
    assert!(Cidr::new_v6(groups([0; 8]), 128).is_some());
}

#[test]
fn a_network_keeps_what_it_was_made_with() {
    let net = slash(10, 0, 0, 77, 24);
    assert_eq!(
        net.network(),
        Network::V4 { addr: AddrIp4 { n0: 10, n1: 0, h0: 0, h1: 77 }, prefix_len: 24 }
    );
}

#[test]
fn address_as_one_number() {
    assert_eq!(AddrIp4 { n0: 0x12, n1: 0x34, h0: 0x56, h1: 0x78 }.bits(), 0x1234_5678);
    assert_eq!(AddrIp4 { n0: 255, n1: 255, h0: 255, h1: 255 }.bits(), u32::MAX);
    assert_eq!(
        groups([0x0001, 0x0002, 0x0003, 0x0004, 0x0005, 0x0006, 0x0007, 0x0008]).bits(),
        0x0001_0002_0003_0004_0005_0006_0007_0008
    );
    assert_eq!(groups([0xffff; 8]).bits(), u128::MAX);
}

#[test]
fn resolution_is_cut_down_to_the_pool() {
    let pool = FixedAddressPool::new(ip4(127, 0, 0, 1, 8080));
    let resolved = vec![
        ip6([0, 0, 0, 0, 0, 0, 0, 1], 8080),
        ip4(127, 0, 0, 1, 8080),
        ip4(127, 0, 0, 2, 8080),
        ip4(127, 0, 0, 1, 8080),
    ];
    assert_eq!(
        addr_pool_resolve(&pool, Ok(resolved)),
        Ok(vec![ip4(127, 0, 0, 1, 8080), ip4(127, 0, 0, 1, 8080)])
    );
}

#[test]
fn resolution_outside_the_pool_is_empty_not_an_error() {
    let pool = RangedAddressPool::new(slash(10, 0, 0, 0, 24), PortRange { start: 9000, end: 9100 });
    assert_eq!(pool.addr_pool_resolve(Ok(vec![ip4(127, 0, 0, 1, 9000)])), Ok(vec![]));
    assert_eq!(pool.addr_pool_resolve(Ok(vec![])), Ok(vec![]));
    assert_eq!(
        pool.addr_pool_resolve(Ok(vec![ip4(10, 0, 0, 9, 9000), ip4(10, 0, 0, 9, 9100)])),
        Ok(vec![ip4(10, 0, 0, 9, 9000)])
    );
}

#[test]
fn a_failed_resolution_is_handed_on() {
    let pool = FixedAddressPool::new(ip4(127, 0, 0, 1, 8080));
    assert_eq!(pool.addr_pool_resolve(Err(Errno::Os(-2))), Err(Errno::Os(-2)));
    assert_eq!(addr_pool_resolve(&pool, Err(Errno::Inval)), Err(Errno::Inval));
}

#[test]
fn pools_are_address_pools_with_pool_rights() {
    let fixed = FixedAddressPool::new(ip4(127, 0, 0, 1, 8080));
    assert_eq!(fixed.get_file_type(), Filetype::AddressPool);
    assert_eq!(fixed.get_rights().base.bits, RIGHTS_ADDRESS_POOL_ALL);
    assert_eq!(fixed.get_rights().inheriting.bits, RIGHTS_SOCKET_ALL);
    assert!(!fixed.is_directory());
    assert!(!fixed.is_tty());
    assert_eq!(fixed.fdstat_get(), Err(Errno::Badf));
    let ranged = RangedAddressPool::new(slash(10, 0, 0, 0, 24), PortRange { start: 1, end: 2 });
    assert_eq!(ranged.get_file_type(), Filetype::AddressPool);
    assert_eq!(ranged.get_rights(), fixed.get_rights());
}

#[test]
fn a_cloned_pool_grants_the_same() {
    let fixed = FixedAddressPool::new(ip4(127, 0, 0, 1, 8080));
    let copy = fixed.try_clone().expect("a pool can be cloned");
    assert_eq!(copy.addr_pool_contains(&ip4(127, 0, 0, 1, 8080)), Ok(true));
    assert_eq!(copy.addr_pool_contains(&ip4(127, 0, 0, 1, 8081)), Ok(false));
    assert_eq!(copy.get_rights(), fixed.get_rights());
    let copy = fixed.copy();
    assert_eq!(copy.addr_pool_contains(&ip4(127, 0, 0, 1, 8080)), Ok(true));
    assert_eq!(copy.addr_pool_contains(&ip4(127, 0, 0, 1, 8081)), Ok(false));
    let ranged = RangedAddressPool::new(slash(10, 0, 0, 0, 24), PortRange { start: 1, end: 2 });
    let copy = ranged.try_clone().expect("a pool can be cloned");
    assert_eq!(copy.addr_pool_contains(&ip4(10, 0, 0, 1, 1)), Ok(true));
    assert_eq!(copy.addr_pool_contains(&ip4(10, 0, 0, 1, 2)), Ok(false));
}

#[test]
fn changing_rights_leaves_membership_alone() {
    let mut pool = FixedAddressPool::new(ip4(127, 0, 0, 1, 8080));
    let mut rights = pool.get_rights();
    rights.base.bits = 0;
    pool.set_rights(rights);
    assert_eq!(pool.get_rights().base.bits, 0);
    assert_eq!(pool.addr_pool_contains(&ip4(127, 0, 0, 1, 8080)), Ok(true));
}

#[test]
fn family_accepts_its_own_addresses() {
    assert!(AddressFamily::Inet4.accepts(&ip4(1, 2, 3, 4, 5)));
    assert!(!AddressFamily::Inet4.accepts(&ip6([0; 8], 5)));
    assert!(AddressFamily::Inet6.accepts(&ip6([0; 8], 5)));
    assert!(!AddressFamily::Inet6.accepts(&ip4(1, 2, 3, 4, 5)));
}

#[test]
fn port_range_is_half_open() {
    let ports = PortRange { start: 9000, end: 9100 };
    assert!(ports.contains(9000));
    assert!(ports.contains(9099));
    assert!(!ports.contains(9100));
    assert!(!ports.contains(8999));
    assert!(!PortRange { start: 0, end: 0 }.contains(0));
    assert!(PortRange { start: 0, end: 65535 }.contains(65534));
    assert!(!PortRange { start: 0, end: 65535 }.contains(65535));
}
