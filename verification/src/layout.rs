//! The UUIDv6 wire layout: how a timestamp, a counter and a node identifier
//! are packed into the 16-byte raw form, and what that packing guarantees.

use vstd::prelude::*;

verus! {

/// One byte of the raw identifier, as a function of the generator state.
///
/// Bytes 0 through 5 carry the high 48 bits of the 60-bit timestamp, big
/// endian. Byte 6 carries the version nibble `0x6` above the next 4 timestamp
/// bits, byte 7 the low 8 timestamp bits. Bytes 8 and 9 carry the counter,
/// big endian, and bytes 10 through 15 the node identifier.
pub open spec fn uuid_byte(ts: u64, counter: u16, node: Seq<u8>, i: int) -> u8
    recommends
        0 <= i < 16,
        node.len() == 6,
{
    if i == 0 {
        ((ts >> 52) & 0xff) as u8
    } else if i == 1 {
        ((ts >> 44) & 0xff) as u8
    } else if i == 2 {
        ((ts >> 36) & 0xff) as u8
    } else if i == 3 {
        ((ts >> 28) & 0xff) as u8
    } else if i == 4 {
        ((ts >> 20) & 0xff) as u8
    } else if i == 5 {
        ((ts >> 12) & 0xff) as u8
    } else if i == 6 {
        (0x60 | ((ts >> 8) & 0x0f)) as u8
    } else if i == 7 {
        (ts & 0xff) as u8
    } else if i == 8 {
        ((counter >> 8) & 0xff) as u8
    } else if i == 9 {
        (counter & 0xff) as u8
    } else {
        node[i - 10]
    }
}

/// The full 16-byte raw identifier produced from one generator state.
pub open spec fn uuid_bytes(ts: u64, counter: u16, node: Seq<u8>) -> Seq<u8> {
    Seq::new(16, |i: int| uuid_byte(ts, counter, node, i))
}

/// The counter value advanced by one, wrapping 65535 back to 0.
pub open spec fn next_counter(c: u16) -> u16 {
    if c == 0xffff {
        0
    } else {
        (c + 1) as u16
    }
}

/// The counter field read back out of a raw identifier, big endian.
pub open spec fn counter_of(b: Seq<u8>) -> u16
    recommends
        b.len() == 16,
{
    (((b[8] as u16) << 8) | (b[9] as u16)) as u16
}

/// The version field invariant: the top four bits of byte 6 of every raw
/// identifier read `0110`, the UUIDv6 version number.
pub proof fn lemma_version_field(ts: u64, counter: u16, node: Seq<u8>)
    ensures
        uuid_bytes(ts, counter, node)[6] >> 4 == 6,
{
    let b6 = uuid_byte(ts, counter, node, 6);
    assert(b6 == (0x60 | ((ts >> 8) & 0x0f)) as u8);
    assert(((0x60 | ((ts >> 8) & 0x0f)) as u8) >> 4 == 6) by (bit_vector);
}

/// The counter field reads back exactly the counter value the identifier was
/// produced with.
pub proof fn lemma_counter_of_bytes(ts: u64, counter: u16, node: Seq<u8>)
    ensures
        counter_of(uuid_bytes(ts, counter, node)) == counter,
{
    let b = uuid_bytes(ts, counter, node);
    assert(b[8] == ((counter >> 8) & 0xff) as u8 && b[9] == (counter & 0xff) as u8);
    assert(((((((counter >> 8) & 0xff) as u8) as u16) << 8) | (((counter & 0xff) as u8) as u16))
        == counter) by (bit_vector);
}

/// Identifiers produced with different counter values differ, whatever their
/// timestamps and nodes: the counter field alone already tells them apart.
pub proof fn lemma_distinct_counters(ts1: u64, c1: u16, n1: Seq<u8>, ts2: u64, c2: u16, n2: Seq<u8>)
    requires
        c1 != c2,
    ensures
        uuid_bytes(ts1, c1, n1) != uuid_bytes(ts2, c2, n2),
{
    lemma_counter_of_bytes(ts1, c1, n1);
    lemma_counter_of_bytes(ts2, c2, n2);
}

/// Any three consecutive productions that share one timestamp and node are
/// pairwise distinct: their counter fields take three different values.
pub proof fn lemma_three_consecutive_distinct(ts: u64, c: u16, node: Seq<u8>)
    ensures
        uuid_bytes(ts, c, node) != uuid_bytes(ts, next_counter(c), node),
        uuid_bytes(ts, next_counter(c), node) != uuid_bytes(ts, next_counter(next_counter(c)), node),
        uuid_bytes(ts, c, node) != uuid_bytes(ts, next_counter(next_counter(c)), node),
{
    lemma_distinct_counters(ts, c, node, ts, next_counter(c), node);
    lemma_distinct_counters(ts, next_counter(c), node, ts, next_counter(next_counter(c)), node);
    lemma_distinct_counters(ts, c, node, ts, next_counter(next_counter(c)), node);
}

/// The counter fields of two consecutive productions differ by exactly one
/// modulo 65536, whatever else changed around them.
pub proof fn lemma_counter_field_step(ts1: u64, ts2: u64, c: u16, n1: Seq<u8>, n2: Seq<u8>)
    ensures
        counter_of(uuid_bytes(ts2, next_counter(c), n2)) == next_counter(
            counter_of(uuid_bytes(ts1, c, n1)),
        ),
{
    lemma_counter_of_bytes(ts1, c, n1);
    lemma_counter_of_bytes(ts2, next_counter(c), n2);
}

/// Identifiers produced for different nodes differ, even when timestamp and
/// counter coincide: the node field occupies bytes 10 through 15 verbatim.
pub proof fn lemma_distinct_nodes(ts1: u64, c1: u16, n1: Seq<u8>, ts2: u64, c2: u16, n2: Seq<u8>)
    requires
        n1.len() == 6,
        n2.len() == 6,
        n1 != n2,
    ensures
        uuid_bytes(ts1, c1, n1) != uuid_bytes(ts2, c2, n2),
{
    if uuid_bytes(ts1, c1, n1) == uuid_bytes(ts2, c2, n2) {
        assert forall|i: int| 0 <= i < 6 implies n1[i] == n2[i] by {
            assert(uuid_bytes(ts1, c1, n1)[10 + i] == n1[i]);
            assert(uuid_bytes(ts2, c2, n2)[10 + i] == n2[i]);
        }
        assert(n1 =~= n2);
    }
}

} // verus!
