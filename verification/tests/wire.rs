use wasi_sockets::types::{Addr, AddrIp4, AddrIp4Port, AddrIp6, AddrIp6Port, Errno};
use wasi_sockets::wire::{write_addrs, Addrs, ADDR_SIZE};

fn ip4(n0: u8, n1: u8, h0: u8, h1: u8, port: u16) -> Addr {
    Addr::Ip4(AddrIp4Port { addr: AddrIp4 { n0, n1, h0, h1 }, port })
}

fn ip6(g: [u16; 8], port: u16) -> Addr {
    Addr::Ip6(AddrIp6Port {
        addr: AddrIp6 { n0: g[0], n1: g[1], n2: g[2], n3: g[3], h0: g[4], h1: g[5], h2: g[6], h3: g[7] },
        port,
    })
}

#[test]
fn ipv4_record_layout() {
    let record = ip4(127, 0, 0, 1, 8080).to_wire();
    assert_eq!(record.len(), ADDR_SIZE);
    assert_eq!(
        record,
        [0, 0, 127, 0, 0, 1, 0x90, 0x1f, 0, 0, 0, 0, 0, 0, 0, 0, 0, 0, 0, 0]
    );
}

#[test]
fn ipv6_record_layout() {
    let record = ip6([0x0102, 0x0304, 0x0506, 0x0708, 0x090a, 0x0b0c, 0x0d0e, 0x0f10], 0x1f90).to_wire();
    assert_eq!(
        record,
        [1, 0, 2, 1, 4, 3, 6, 5, 8, 7, 10, 9, 12, 11, 14, 13, 16, 15, 0x90, 0x1f]
    );
}

#[test]
fn record_round_trip() {
    for addr in [
        ip4(0, 0, 0, 0, 0),
        ip4(127, 0, 0, 1, 8080),
        ip4(255, 255, 255, 255, 65535),
        ip6([0; 8], 0),
        ip6([0, 0, 0, 0, 0, 0, 0, 1], 8080),
        ip6([0xffff; 8], 65535),
        ip6([0x0102, 0x0304, 0x0506, 0x0708, 0x090a, 0x0b0c, 0x0d0e, 0x0f10], 0x1112),
    ] {
        assert_eq!(Addr::from_wire(&addr.to_wire(), 0), Ok(addr));
    }
}

#[test]
fn unknown_tag_is_an_invalid_argument() {
    let mut record = ip4(127, 0, 0, 1, 8080).to_wire();
    record[0] = 2;
    assert_eq!(Addr::from_wire(&record, 0), Err(Errno::Inval));
    record[0] = 255;
    assert_eq!(Addr::from_wire(&record, 0), Err(Errno::Inval));
}

#[test]
fn a_short_record_is_an_invalid_argument() {
    let record = ip4(127, 0, 0, 1, 8080).to_wire();
    assert_eq!(Addr::from_wire(&record[..19], 0), Err(Errno::Inval));
    assert_eq!(Addr::from_wire(&record, 1), Err(Errno::Inval));
    assert_eq!(Addr::from_wire(&[], 0), Err(Errno::Inval));
    assert_eq!(Addr::from_wire(&record, 21), Err(Errno::Inval));
}

#[test]
fn a_record_is_read_where_it_starts() {
    let mut bytes = vec![0xaa, 0xbb, 0xcc];
    bytes.extend_from_slice(&ip6([9, 8, 7, 6, 5, 4, 3, 2], 1).to_wire());
    bytes.push(0xdd);
    assert_eq!(Addr::from_wire(&bytes, 3), Ok(ip6([9, 8, 7, 6, 5, 4, 3, 2], 1)));
}

#[test]
fn addr_resolve_no_overflow() {
    let addrs = vec![ip4(127, 0, 0, 1, 0), ip6([0, 0, 0, 0, 0, 0, 0, 1], 0)];
    assert_eq!(write_addrs(&addrs, 19), Vec::<u8>::new());
    assert_eq!(write_addrs(&addrs, 0), Vec::<u8>::new());
    assert_eq!(write_addrs(&addrs, 20).len(), 20);
    assert_eq!(write_addrs(&addrs, 39).len(), 20);
    assert_eq!(write_addrs(&addrs, 40).len(), 40);
    assert_eq!(write_addrs(&addrs, 256).len(), 40);
    assert_eq!(write_addrs(&vec![], 256), Vec::<u8>::new());
}

#[test]
fn addr_resolve() {
    let addrs = vec![ip4(127, 0, 0, 1, 8080), ip6([0, 0, 0, 0, 0, 0, 0, 1], 8080)];
    let bytes = write_addrs(&addrs, 256);
    let mut expected = Vec::new();
    expected.extend_from_slice(&addrs[0].to_wire());
    expected.extend_from_slice(&addrs[1].to_wire());
    assert_eq!(bytes, expected);
    let mut walk = Addrs::from_slice(&bytes);
    assert_eq!(walk.next(), Some(Ok(addrs[0])));
    assert_eq!(walk.next(), Some(Ok(addrs[1])));
    assert_eq!(walk.next(), None);
    assert_eq!(walk.next(), None);
}

#[test]
fn a_walk_over_nothing_ends_at_once() {
    let mut walk = Addrs::from_slice(&[]);
    assert_eq!(walk.next(), None);
}

#[test]
fn a_walk_reports_a_bad_record_and_goes_on() {
    let mut bytes = Vec::new();
    let mut bad = ip4(1, 2, 3, 4, 5).to_wire();
    bad[0] = 7;
    bytes.extend_from_slice(&bad);
    bytes.extend_from_slice(&ip4(5, 6, 7, 8, 9).to_wire());
    bytes.extend_from_slice(&[0, 0, 1]);
    let mut walk = Addrs::from_slice(&bytes);
    assert_eq!(walk.next(), Some(Err(Errno::Inval)));
    assert_eq!(walk.next(), Some(Ok(ip4(5, 6, 7, 8, 9))));
    assert_eq!(walk.next(), Some(Err(Errno::Inval)));
    assert_eq!(walk.next(), None);
}
