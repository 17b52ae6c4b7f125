//! The address record as it lies in the guest's memory.
//!
//! A record is twenty bytes. Byte 0 is the tag, 0 for IPv4 and 1 for IPv6;
//! byte 1 is padding. An IPv4 record holds the four octets at bytes 2 to 5 and
//! the port at bytes 6 and 7. An IPv6 record holds the eight groups at bytes 2
//! to 17 and the port at bytes 18 and 19. Ports and groups are 16-bit numbers
//! with the less significant byte first, as the guest stores them.

use vstd::prelude::*;
use crate::codec::{
    hi, high_byte, join, join_bytes, lemma_join_split, lo, low_byte, spec_group,
};
use crate::types::{Addr, AddrIp4, AddrIp4Port, AddrIp6, AddrIp6Port, Errno};

verus! {

/// The size of one address record.
pub const ADDR_SIZE: usize = 20;

/// The tag of an IPv4 record.
pub const ADDR_TYPE_IP4: u8 = 0;

/// The tag of an IPv6 record.
pub const ADDR_TYPE_IP6: u8 = 1;

/// The record of an address.
pub open spec fn spec_to_wire(addr: Addr) -> Seq<u8> {
    match addr {
        Addr::Ip4(a) => Seq::new(
            20,
            |i: int|
                if i == 0 {
                    ADDR_TYPE_IP4
                } else if i == 2 {
                    a.addr.n0
                } else if i == 3 {
                    a.addr.n1
                } else if i == 4 {
                    a.addr.h0
                } else if i == 5 {
                    a.addr.h1
                } else if i == 6 {
                    lo(a.port)
                } else if i == 7 {
                    hi(a.port)
                } else {
                    0u8
                },
        ),
        Addr::Ip6(a) => Seq::new(
            20,
            |i: int|
                if i == 0 {
                    ADDR_TYPE_IP6
                } else if i == 1 {
                    0u8
                } else if i == 18 {
                    lo(a.port)
                } else if i == 19 {
                    hi(a.port)
                } else if i % 2 == 0 {
                    lo(spec_group(a.addr, (i - 2) / 2))
                } else {
                    hi(spec_group(a.addr, (i - 2) / 2))
                },
        ),
    }
}

/// The address that a record stands for: the tag chooses the variant, and a
/// record with any other tag, or of fewer than twenty bytes, is an invalid
/// argument. Bytes after the twentieth are not looked at.
pub open spec fn spec_from_wire(bytes: Seq<u8>) -> Result<Addr, Errno> {
    if bytes.len() < 20 {
        Err(Errno::Inval)
    } else if bytes[0] == ADDR_TYPE_IP4 {
        Ok(
            Addr::Ip4(
                AddrIp4Port {
                    addr: AddrIp4 { n0: bytes[2], n1: bytes[3], h0: bytes[4], h1: bytes[5] },
                    port: join(bytes[7], bytes[6]),
                },
            ),
        )
    } else if bytes[0] == ADDR_TYPE_IP6 {
        Ok(
            Addr::Ip6(
                AddrIp6Port {
                    addr: AddrIp6 {
                        n0: join(bytes[3], bytes[2]),
                        n1: join(bytes[5], bytes[4]),
                        n2: join(bytes[7], bytes[6]),
                        n3: join(bytes[9], bytes[8]),
                        h0: join(bytes[11], bytes[10]),
                        h1: join(bytes[13], bytes[12]),
                        h2: join(bytes[15], bytes[14]),
                        h3: join(bytes[17], bytes[16]),
                    },
                    port: join(bytes[19], bytes[18]),
                },
            ),
        )
    } else {
        Err(Errno::Inval)
    }
}

impl Addr {
    /// The record of the address.
    pub fn to_wire(&self) -> (record: [u8; 20])
        ensures
            record@ == spec_to_wire(*self),
    {
        let mut record: [u8; 20] = [0u8; 20];
        match self {
            Addr::Ip4(a) => {
                record[0] = ADDR_TYPE_IP4;
                record[2] = a.addr.n0;
                record[3] = a.addr.n1;
                record[4] = a.addr.h0;
                record[5] = a.addr.h1;
                record[6] = low_byte(a.port);
                record[7] = high_byte(a.port);
            },
            Addr::Ip6(a) => {
                record[0] = ADDR_TYPE_IP6;
                record[2] = low_byte(a.addr.n0);
                record[3] = high_byte(a.addr.n0);
                record[4] = low_byte(a.addr.n1);
                record[5] = high_byte(a.addr.n1);
                record[6] = low_byte(a.addr.n2);
                record[7] = high_byte(a.addr.n2);
                record[8] = low_byte(a.addr.n3);
                record[9] = high_byte(a.addr.n3);
                record[10] = low_byte(a.addr.h0);
                record[11] = high_byte(a.addr.h0);
                record[12] = low_byte(a.addr.h1);
                record[13] = high_byte(a.addr.h1);
                record[14] = low_byte(a.addr.h2);
                record[15] = high_byte(a.addr.h2);
                record[16] = low_byte(a.addr.h3);
                record[17] = high_byte(a.addr.h3);
                record[18] = low_byte(a.port);
                record[19] = high_byte(a.port);
            },
        }
        assert(record@ =~= spec_to_wire(*self));
        record
    }

    /// The address of the record that starts at `at` in `bytes`, or an
    /// invalid-argument error where fewer than twenty bytes follow `at`, `at`
    /// lies beyond the end, or the tag is unknown.
    pub fn from_wire(bytes: &[u8], at: usize) -> (addr: Result<Addr, Errno>)
        ensures
            addr == if at <= bytes@.len() {
                spec_from_wire(bytes@.skip(at as int))
            } else {
                Err::<Addr, Errno>(Errno::Inval)
            },
    {
        if at > bytes.len() || bytes.len() - at < ADDR_SIZE {
            return Err(Errno::Inval);
        }
        let ghost rest = bytes@.skip(at as int);
        assert(forall|i: int| 0 <= i < 20 ==> rest[i] == bytes@[at + i]);
        let tag = bytes[at];
        if tag == ADDR_TYPE_IP4 {
            Ok(
                Addr::Ip4(
                    AddrIp4Port {
                        addr: AddrIp4 {
                            n0: bytes[at + 2],
                            n1: bytes[at + 3],
                            h0: bytes[at + 4],
                            h1: bytes[at + 5],
                        },
                        port: join_bytes(bytes[at + 7], bytes[at + 6]),
                    },
                ),
            )
        } else if tag == ADDR_TYPE_IP6 {
            Ok(
                Addr::Ip6(
                    AddrIp6Port {
                        addr: AddrIp6 {
                            n0: join_bytes(bytes[at + 3], bytes[at + 2]),
                            n1: join_bytes(bytes[at + 5], bytes[at + 4]),
                            n2: join_bytes(bytes[at + 7], bytes[at + 6]),
                            n3: join_bytes(bytes[at + 9], bytes[at + 8]),
                            h0: join_bytes(bytes[at + 11], bytes[at + 10]),
                            h1: join_bytes(bytes[at + 13], bytes[at + 12]),
                            h2: join_bytes(bytes[at + 15], bytes[at + 14]),
                            h3: join_bytes(bytes[at + 17], bytes[at + 16]),
                        },
                        port: join_bytes(bytes[at + 19], bytes[at + 18]),
                    },
                ),
            )
        } else {
            Err(Errno::Inval)
        }
    }
}

/// Writing an address as a record and reading the record gives the address
/// again.
pub proof fn lemma_wire_round_trip(addr: Addr)
    ensures
        spec_from_wire(spec_to_wire(addr)) == Ok::<Addr, Errno>(addr),
{
    match addr {
        Addr::Ip4(a) => {
            lemma_join_split(a.port);
        },
        Addr::Ip6(a) => {
            lemma_join_split(a.port);
            lemma_join_split(a.addr.n0);
            lemma_join_split(a.addr.n1);
            lemma_join_split(a.addr.n2);
            lemma_join_split(a.addr.n3);
            lemma_join_split(a.addr.h0);
            lemma_join_split(a.addr.h1);
            lemma_join_split(a.addr.h2);
            lemma_join_split(a.addr.h3);
        },
    }
}

/// The number of whole records that fit into `capacity` bytes, and no more
/// than `count`.
pub open spec fn spec_records_that_fit(count: nat, capacity: nat) -> nat {
    if count <= capacity / 20 {
        count
    } else {
        capacity / 20
    }
}

/// The records of the first `n` addresses of `addrs`, one after the other.
pub open spec fn spec_records(addrs: Seq<Addr>, n: nat) -> Seq<u8>
    decreases n,
{
    if n == 0 {
        Seq::<u8>::empty()
    } else {
        spec_records(addrs, (n - 1) as nat) + spec_to_wire(addrs[n - 1])
    }
}

/// The records of a list of addresses take twenty bytes each.
pub proof fn lemma_records_len(addrs: Seq<Addr>, n: nat)
    requires
        n <= addrs.len(),
    ensures
        spec_records(addrs, n).len() == 20 * n,
    decreases n,
{
    if n > 0 {
        lemma_records_len(addrs, (n - 1) as nat);
    }
}

/// The bytes to hand a guest whose buffer holds `capacity` bytes: the
/// records of the leading addresses of `addrs`, as many whole records as the
/// buffer holds. A buffer too small for one record gets nothing.
pub fn write_addrs(addrs: &Vec<Addr>, capacity: usize) -> (out: Vec<u8>)
    ensures
        out@ == spec_records(addrs@, spec_records_that_fit(addrs@.len(), capacity as nat)),
        out@.len() <= capacity,
{
    let fit = capacity / ADDR_SIZE;
    let n = if addrs.len() <= fit {
        addrs.len()
    } else {
        fit
    };
    let mut out: Vec<u8> = Vec::new();
    let mut i: usize = 0;
    while i < n
        invariant
            i <= n,
            n <= addrs.len(),
            n <= capacity / 20,
            out@ == spec_records(addrs@, i as nat),
        decreases n - i,
    {
        let record = addrs[i].to_wire();
        let ghost before = out@;
        let mut j: usize = 0;
        while j < ADDR_SIZE
            invariant
                j <= 20,
                record@ == spec_to_wire(addrs@[i as int]),
                out@ == before + record@.take(j as int),
            decreases 20 - j,
        {
            out.push(record[j]);
            j = j + 1;
            assert(out@ =~= before + record@.take(j as int));
        }
        assert(record@.take(20) =~= record@);
        i = i + 1;
    }
    proof {
        lemma_records_len(addrs@, n as nat);
    }
    out
}

/// A walk over the address records in a buffer, first to last.
pub struct Addrs<'a> {
    buf: &'a [u8],
    at: usize,
}

impl<'a> Addrs<'a> {
    #[verifier::type_invariant]
    spec fn sound(self) -> bool {
        self.at <= self.buf@.len()
    }

    /// The bytes of the buffer that the walk has not read yet.
    pub closed spec fn spec_rest(&self) -> Seq<u8> {
        self.buf@.skip(self.at as int)
    }

    /// The walk over `buf`, at its start.
    pub fn from_slice(buf: &'a [u8]) -> (addrs: Addrs<'a>)
        ensures
            addrs.spec_rest() == buf@,
    {
        proof {
            assert(buf@.skip(0) =~= buf@);
        }
        Addrs { buf, at: 0 }
    }

    /// The next record, read as an address. `None` when the buffer is used
    /// up. Otherwise the walk moves on by one record and gives its address,
    /// or an invalid-argument error for an unknown tag; a last piece shorter
    /// than a record is an invalid argument too, and ends the walk.
    pub fn next(&mut self) -> (item: Option<Result<Addr, Errno>>)
        ensures
            old(self).spec_rest().len() == 0 ==> item.is_none() && final(self).spec_rest()
                == old(self).spec_rest(),
            old(self).spec_rest().len() > 0 ==> item == Some(
                spec_from_wire(old(self).spec_rest()),
            ),
            0 < old(self).spec_rest().len() < 20 ==> final(self).spec_rest().len() == 0,
            old(self).spec_rest().len() >= 20 ==> final(self).spec_rest() == old(
                self,
            ).spec_rest().skip(20),
    {
        proof {
            use_type_invariant(&*self);
        }
        let len = self.buf.len();
        if self.at >= len {
            return None;
        }
        let addr = Addr::from_wire(self.buf, self.at);
        if len - self.at < ADDR_SIZE {
            self.at = len;
        } else {
            assert(self.buf@.skip(self.at as int).skip(20) =~= self.buf@.skip(self.at + 20));
            self.at = self.at + ADDR_SIZE;
        }
        Some(addr)
    }
}

} // verus!
