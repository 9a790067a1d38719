//! The identifier generators: a node identifier, the raw generator that packs
//! timestamp, counter and node into 16 bytes, the string generator that
//! renders them as canonical text, and the unbounded producer views of both.

use vstd::prelude::*;

use crate::layout::{next_counter, uuid_bytes};
use crate::sys;
use crate::text;
use crate::text::{uuid_chars, uuid_text};

verus! {

/// Why a generator could not be built or reseeded. Both failures are fatal:
/// the operation that met one is abandoned, never retried.
#[derive(Clone, Copy, Debug, PartialEq, Eq)]
pub enum FatalError {
    /// The secure random source could not supply bytes.
    EntropyUnavailable,
    /// The system clock read a time before the Unix epoch, or the
    /// epoch-shifted nanosecond value overflowed its 128-bit representation.
    ClockFault,
}

/// A 6-byte spatially unique identifier of the generating entity.
#[derive(Default, Debug, Copy, Clone, Hash, Eq, PartialEq, PartialOrd, Ord)]
pub struct Node {
    node_id: [u8; 6],
}

impl View for Node {
    type V = Seq<u8>;

    closed spec fn view(&self) -> Seq<u8> {
        self.node_id@
    }
}

/// A node identifier always holds exactly 6 bytes.
pub proof fn lemma_node_len(node: Node)
    ensures
        node@.len() == 6,
{
}

impl Node {
    /// Create a random node identifier, all 6 bytes drawn from the secure
    /// random source.
    pub fn new() -> (r: Result<Node, FatalError>)
        ensures
            r matches Err(e) ==> e == FatalError::EntropyUnavailable,
    {
        let mut buf: Vec<u8> = vec![0u8; 6];
        match sys::fill_random(&mut buf) {
            Ok(_) => Ok(Node { node_id: [buf[0], buf[1], buf[2], buf[3], buf[4], buf[5]] }),
            Err(_) => Err(FatalError::EntropyUnavailable),
        }
    }

    /// Create a node identifier from a byte array, copied verbatim.
    pub fn from_bytes(bytes: &[u8; 6]) -> (r: Node)
        ensures
            r@ == bytes@,
    {
        Node { node_id: *bytes }
    }

    /// Create a standard UUIDv6 base object, which renders identifiers as
    /// 36-character strings.
    pub fn uuidv6(&self) -> (r: Result<UUIDv6, FatalError>)
        ensures
            r matches Ok(g) ==> (g.spec_raw().spec_node() == self@ && freshly_seeded(
                g.spec_raw(),
            )),
    {
        UUIDv6::new(self)
    }

    /// Create a raw UUIDv6 base object, which renders identifiers as 16-byte
    /// binary arrays.
    pub fn uuidv6_raw(&self) -> (r: Result<RawUUIDv6, FatalError>)
        ensures
            r matches Ok(g) ==> (g.spec_node() == self@ && freshly_seeded(g)),
    {
        RawUUIDv6::new(self)
    }
}

/// The fixed epoch shift added to a Unix-epoch nanosecond reading before the
/// division by 100 that yields the encoded timestamp, moving the timestamp's
/// origin back toward the UUID epoch of 1582-10-15.
pub const UUID_EPOCH_SHIFT: u128 = 1221929280000000;

/// The timestamp encoded into identifiers, computed from a Unix-epoch
/// nanosecond reading: the epoch-shifted value divided by 100 and truncated
/// to 64 bits, or nothing when the shift overflows the 128-bit intermediate.
pub open spec fn spec_uuid_timestamp(nanos: u128) -> Option<u64> {
    if nanos + UUID_EPOCH_SHIFT > u128::MAX {
        None
    } else {
        Some(((((nanos + UUID_EPOCH_SHIFT) as u128) / 100) % 0x10000000000000000) as u64)
    }
}

/// Compute the timestamp encoded into identifiers from a Unix-epoch
/// nanosecond reading; `None` exactly when the epoch shift overflows.
pub fn uuid_timestamp(nanos: u128) -> (r: Option<u64>)
    ensures
        r == spec_uuid_timestamp(nanos),
{
    match nanos.checked_add(UUID_EPOCH_SHIFT) {
        Some(shifted) => {
            let t = shifted / 100;
            let ts = #[verifier::truncate] (t as u64);
            proof {
                assert(ts == t % 0x10000000000000000) by (bit_vector)
                    requires
                        ts == t as u64,
                ;
            }
            Some(ts)
        },
        None => None,
    }
}

/// A raw UUIDv6 generator: each production is a 16-byte array.
#[derive(Default, Debug, Hash, Eq, PartialEq, PartialOrd, Ord)]
pub struct RawUUIDv6 {
    ts: u64,
    counter: u16,
    initial_counter: u16,
    node: Node,
}

/// A freshly seeded generator: the counter still equals the seed value
/// recorded for wraparound detection.
pub open spec fn freshly_seeded(g: RawUUIDv6) -> bool {
    g.spec_counter() == g.spec_initial_counter()
}

/// The transition one production makes when the counter does not wrap back
/// to its seed: the counter advances by exactly one modulo 65536 and
/// everything else stays.
pub open spec fn plain_step(pre: RawUUIDv6, post: RawUUIDv6) -> bool {
    &&& next_counter(pre.spec_counter()) != pre.spec_initial_counter()
    &&& post.spec_ts() == pre.spec_ts()
    &&& post.spec_initial_counter() == pre.spec_initial_counter()
    &&& post.spec_counter() == next_counter(pre.spec_counter())
    &&& post.spec_node() == pre.spec_node()
}

impl RawUUIDv6 {
    /// The encoded timestamp held by the generator.
    pub closed spec fn spec_ts(&self) -> u64 {
        self.ts
    }

    /// The counter to be written into the next production.
    pub closed spec fn spec_counter(&self) -> u16 {
        self.counter
    }

    /// The counter value drawn at the last seeding, kept to detect a full
    /// wraparound.
    pub closed spec fn spec_initial_counter(&self) -> u16 {
        self.initial_counter
    }

    /// The bytes of the node identifier the generator was built for.
    pub closed spec fn spec_node(&self) -> Seq<u8> {
        self.node@
    }

    /// Create a new UUIDv6 base object: the timestamp is taken from the
    /// system clock, the counter seeded with 2 bytes from the secure random
    /// source, read big-endian.
    pub fn new(node: &Node) -> (r: Result<RawUUIDv6, FatalError>)
        ensures
            r matches Ok(g) ==> (g.spec_node() == node@ && freshly_seeded(g)),
    {
        let nanos = match sys::unix_nanos_now() {
            Some(n) => n,
            None => { return Err(FatalError::ClockFault) },
        };
        let ts = match uuid_timestamp(nanos) {
            Some(t) => t,
            None => { return Err(FatalError::ClockFault) },
        };
        let mut buf: Vec<u8> = vec![0u8; 2];
        if let Err(_) = sys::fill_random(&mut buf) {
            return Err(FatalError::EntropyUnavailable);
        }
        let initial_counter: u16 = ((buf[0] as u16) << 8) | (buf[1] as u16);
        Ok(RawUUIDv6 { ts, counter: initial_counter, initial_counter, node: *node })
    }

    /// Return the next UUIDv6 as bytes: the production packs the current
    /// state into the wire layout, then advances the counter; when the
    /// counter has cycled back to its seed the whole generator is reseeded
    /// in place, and only that reseeding can fail. On failure the generator
    /// is left unchanged and no identifier is handed out.
    pub fn create(&mut self) -> (r: Result<[u8; 16], FatalError>)
        ensures
            r matches Ok(buf) ==> buf@ == uuid_bytes(
                old(self).spec_ts(),
                old(self).spec_counter(),
                old(self).spec_node(),
            ),
            final(self).spec_node() == old(self).spec_node(),
            next_counter(old(self).spec_counter()) != old(self).spec_initial_counter() ==> (r
                is Ok && plain_step(*old(self), *final(self))),
            (next_counter(old(self).spec_counter()) == old(self).spec_initial_counter() && r
                is Ok) ==> freshly_seeded(*final(self)),
            r matches Err(_) ==> (*final(self) == *old(self) && next_counter(
                old(self).spec_counter(),
            ) == old(self).spec_initial_counter()),
    {
        let ts = self.ts;
        let s: u64 = ts << 4u64;
        let b0 = #[verifier::truncate] ((s >> 56u64) as u8);
        let b1 = #[verifier::truncate] ((s >> 48u64) as u8);
        let b2 = #[verifier::truncate] ((s >> 40u64) as u8);
        let b3 = #[verifier::truncate] ((s >> 32u64) as u8);
        let b4 = #[verifier::truncate] ((s >> 24u64) as u8);
        let b5 = #[verifier::truncate] ((s >> 16u64) as u8);
        let b6t = #[verifier::truncate] ((s >> 8u64) as u8);
        let b7t = #[verifier::truncate] (s as u8);
        let x: u16 = (0x06u16 << 12u16) | ((((b6t as u16) << 8u16) | (b7t as u16)) >> 4u16);
        let b6 = #[verifier::truncate] ((x >> 8u16) as u8);
        let b7 = #[verifier::truncate] (x as u8);
        let c = self.counter;
        let b8 = #[verifier::truncate] ((c >> 8u16) as u8);
        let b9 = #[verifier::truncate] (c as u8);
        let buf: [u8; 16] = [
            b0,
            b1,
            b2,
            b3,
            b4,
            b5,
            b6,
            b7,
            b8,
            b9,
            self.node.node_id[0],
            self.node.node_id[1],
            self.node.node_id[2],
            self.node.node_id[3],
            self.node.node_id[4],
            self.node.node_id[5],
        ];
        proof {
            lemma_pack(ts, s, b0, b1, b2, b3, b4, b5, b6t, b7t, x, b6, b7, c, b8, b9);
            assert(buf@ =~= uuid_bytes(self.ts, self.counter, self.node@));
        }
        let next = if self.counter == 0xffffu16 {
            0u16
        } else {
            self.counter + 1
        };
        if next == self.initial_counter {
            let node = self.node;
            match RawUUIDv6::new(&node) {
                Ok(fresh) => {
                    *self = fresh;
                    Ok(buf)
                },
                Err(e) => Err(e),
            }
        } else {
            self.counter = next;
            Ok(buf)
        }
    }
}

/// The bit manipulation of a production matches the wire layout: shifting the
/// timestamp left by 4 and writing it big-endian, then overlaying the version
/// nibble, yields exactly the bytes the layout specifies.
proof fn lemma_pack(
    ts: u64,
    s: u64,
    b0: u8,
    b1: u8,
    b2: u8,
    b3: u8,
    b4: u8,
    b5: u8,
    b6t: u8,
    b7t: u8,
    x: u16,
    b6: u8,
    b7: u8,
    c: u16,
    b8: u8,
    b9: u8,
)
    by (bit_vector)
    requires
        s == ts << 4u64,
        b0 == (s >> 56u64) as u8,
        b1 == (s >> 48u64) as u8,
        b2 == (s >> 40u64) as u8,
        b3 == (s >> 32u64) as u8,
        b4 == (s >> 24u64) as u8,
        b5 == (s >> 16u64) as u8,
        b6t == (s >> 8u64) as u8,
        b7t == s as u8,
        x == (0x06u16 << 12u16) | ((((b6t as u16) << 8u16) | (b7t as u16)) >> 4u16),
        b6 == (x >> 8u16) as u8,
        b7 == x as u8,
        b8 == (c >> 8u16) as u8,
        b9 == c as u8,
    ensures
        b0 == ((ts >> 52) & 0xff) as u8,
        b1 == ((ts >> 44) & 0xff) as u8,
        b2 == ((ts >> 36) & 0xff) as u8,
        b3 == ((ts >> 28) & 0xff) as u8,
        b4 == ((ts >> 20) & 0xff) as u8,
        b5 == ((ts >> 12) & 0xff) as u8,
        b6 == (0x60 | ((ts >> 8) & 0x0f)) as u8,
        b7 == (ts & 0xff) as u8,
        b8 == ((c >> 8) & 0xff) as u8,
        b9 == (c & 0xff) as u8,
{
}

/// A regular UUIDv6 generator: each production is a 36-character string.
#[derive(Default, Debug, Hash, Eq, PartialEq, PartialOrd, Ord)]
pub struct UUIDv6 {
    raw: RawUUIDv6,
}

impl UUIDv6 {
    /// The raw generator the string generator wraps.
    pub closed spec fn spec_raw(&self) -> RawUUIDv6 {
        self.raw
    }

    /// Create a new string-producing UUIDv6 generator for a node.
    pub fn new(node: &Node) -> (r: Result<UUIDv6, FatalError>)
        ensures
            r matches Ok(g) ==> (g.spec_raw().spec_node() == node@ && freshly_seeded(
                g.spec_raw(),
            )),
    {
        match RawUUIDv6::new(node) {
            Ok(raw) => Ok(UUIDv6 { raw }),
            Err(e) => Err(e),
        }
    }

    /// Return the next UUIDv6 as its canonical 36-character string: the raw
    /// production hex-expanded in lowercase with hyphens at positions 8, 13,
    /// 18 and 23. The generator advances exactly as the raw production does.
    pub fn create(&mut self) -> (r: Result<String, FatalError>)
        ensures
            r matches Ok(st) ==> st@ == uuid_chars(
                uuid_bytes(
                    old(self).spec_raw().spec_ts(),
                    old(self).spec_raw().spec_counter(),
                    old(self).spec_raw().spec_node(),
                ),
            ),
            final(self).spec_raw().spec_node() == old(self).spec_raw().spec_node(),
            next_counter(old(self).spec_raw().spec_counter()) != old(
                self,
            ).spec_raw().spec_initial_counter() ==> (r is Ok && plain_step(
                old(self).spec_raw(),
                final(self).spec_raw(),
            )),
            (next_counter(old(self).spec_raw().spec_counter()) == old(
                self,
            ).spec_raw().spec_initial_counter() && r is Ok) ==> freshly_seeded(
                final(self).spec_raw(),
            ),
            r matches Err(_) ==> (*final(self) == *old(self) && next_counter(
                old(self).spec_raw().spec_counter(),
            ) == old(self).spec_raw().spec_initial_counter()),
    {
        let buf = match self.raw.create() {
            Ok(b) => b,
            Err(e) => { return Err(e) },
        };
        let mut out: Vec<u8> = Vec::new();
        text::hex_format(&mut out, &buf[0..4]);
        out.push(text::HYPHEN);
        text::hex_format(&mut out, &buf[4..6]);
        out.push(text::HYPHEN);
        text::hex_format(&mut out, &buf[6..8]);
        out.push(text::HYPHEN);
        text::hex_format(&mut out, &buf[8..10]);
        out.push(text::HYPHEN);
        text::hex_format(&mut out, &buf[10..16]);
        proof {
            assert(out@ =~= uuid_text(buf@));
            text::lemma_uuid_text_ascii(buf@);
        }
        let st = sys::ascii_string(&out);
        proof {
            assert(st@ =~= uuid_chars(buf@));
        }
        Ok(st)
    }
}

/// An unbounded producer of raw identifiers: each pull advances the wrapped
/// generator by one production and never signals an end of the sequence.
#[derive(Default, Debug, Hash, Eq, PartialEq, PartialOrd, Ord)]
pub struct RawUUIDv6Iterator {
    uuid: RawUUIDv6,
}

impl RawUUIDv6Iterator {
    /// The generator the producer draws from.
    pub closed spec fn spec_gen(&self) -> RawUUIDv6 {
        self.uuid
    }

    /// Produce the next raw identifier; `None` only when an internal reseed
    /// failed, in which case the generator is unchanged.
    pub fn next(&mut self) -> (r: Option<[u8; 16]>)
        ensures
            r matches Some(buf) ==> buf@ == uuid_bytes(
                old(self).spec_gen().spec_ts(),
                old(self).spec_gen().spec_counter(),
                old(self).spec_gen().spec_node(),
            ),
            final(self).spec_gen().spec_node() == old(self).spec_gen().spec_node(),
            next_counter(old(self).spec_gen().spec_counter()) != old(
                self,
            ).spec_gen().spec_initial_counter() ==> (r is Some && plain_step(
                old(self).spec_gen(),
                final(self).spec_gen(),
            )),
            (next_counter(old(self).spec_gen().spec_counter()) == old(
                self,
            ).spec_gen().spec_initial_counter() && r is Some) ==> freshly_seeded(
                final(self).spec_gen(),
            ),
            r is None ==> *final(self) == *old(self),
    {
        match self.uuid.create() {
            Ok(b) => Some(b),
            Err(_) => None,
        }
    }
}

impl RawUUIDv6 {
    /// Turn the generator into an unbounded producer of raw identifiers.
    /// Consuming the producer consumes the generator: a fresh sequence needs
    /// a fresh generator.
    pub fn into_iter(self) -> (r: RawUUIDv6Iterator)
        ensures
            r.spec_gen() == self,
    {
        RawUUIDv6Iterator { uuid: self }
    }
}

/// An unbounded producer of identifier strings: each pull advances the
/// wrapped generator by one production and never signals an end of the
/// sequence.
#[derive(Default, Debug, Hash, Eq, PartialEq, PartialOrd, Ord)]
pub struct UUIDv6Iterator {
    uuid: UUIDv6,
}

impl UUIDv6Iterator {
    /// The string generator the producer draws from.
    pub closed spec fn spec_gen(&self) -> UUIDv6 {
        self.uuid
    }

    /// Produce the next identifier string; `None` only when an internal
    /// reseed failed, in which case the generator is unchanged.
    pub fn next(&mut self) -> (r: Option<String>)
        ensures
            r matches Some(st) ==> st@ == uuid_chars(
                uuid_bytes(
                    old(self).spec_gen().spec_raw().spec_ts(),
                    old(self).spec_gen().spec_raw().spec_counter(),
                    old(self).spec_gen().spec_raw().spec_node(),
                ),
            ),
            final(self).spec_gen().spec_raw().spec_node() == old(
                self,
            ).spec_gen().spec_raw().spec_node(),
            next_counter(old(self).spec_gen().spec_raw().spec_counter()) != old(
                self,
            ).spec_gen().spec_raw().spec_initial_counter() ==> (r is Some && plain_step(
                old(self).spec_gen().spec_raw(),
                final(self).spec_gen().spec_raw(),
            )),
            r is None ==> *final(self) == *old(self),
    {
        match self.uuid.create() {
            Ok(st) => Some(st),
            Err(_) => None,
        }
    }
}

impl UUIDv6 {
    /// Turn the generator into an unbounded producer of identifier strings.
    /// Consuming the producer consumes the generator: a fresh sequence needs
    /// a fresh generator.
    pub fn into_iter(self) -> (r: UUIDv6Iterator)
        ensures
            r.spec_gen() == self,
    {
        UUIDv6Iterator { uuid: self }
    }
}

/// The counter value advanced by `k` productions, wrapping modulo 65536.
pub open spec fn counter_plus(c: u16, k: int) -> u16
    recommends
        k >= 0,
{
    ((c + k) % 0x10000) as u16
}

/// Advancing by one more production advances the wrapped counter by one.
proof fn lemma_counter_plus_step(c: u16, k: int)
    requires
        k >= 1,
    ensures
        counter_plus(c, k) == next_counter(counter_plus(c, k - 1)),
{
    let m = 0x10000int;
    vstd::arithmetic::div_mod::lemma_fundamental_div_mod(c + k - 1, m);
    vstd::arithmetic::div_mod::lemma_mod_bound(c + k - 1, m);
    let q = (c + k - 1) / m;
    let r = (c + k - 1) % m;
    if r == m - 1 {
        vstd::arithmetic::div_mod::lemma_fundamental_div_mod_converse_mod(c + k, m, q + 1, 0);
    } else {
        vstd::arithmetic::div_mod::lemma_fundamental_div_mod_converse_mod(c + k, m, q, r + 1);
    }
}

/// Along a chain of reseed-free productions the counter walks its cycle one
/// step per production while timestamp, seed and node stay put.
proof fn lemma_chain_state(states: Seq<RawUUIDv6>, i: int)
    requires
        0 <= i < states.len(),
        forall|j: int| 0 <= j < i ==> plain_step(#[trigger] states[j], states[j + 1]),
    ensures
        states[i].spec_counter() == counter_plus(states[0].spec_counter(), i),
        states[i].spec_ts() == states[0].spec_ts(),
        states[i].spec_initial_counter() == states[0].spec_initial_counter(),
        states[i].spec_node() == states[0].spec_node(),
    decreases i,
{
    let c0 = states[0].spec_counter();
    if i == 0 {
        vstd::arithmetic::div_mod::lemma_fundamental_div_mod_converse_mod(
            c0 as int,
            0x10000,
            0,
            c0 as int,
        );
    } else {
        lemma_chain_state(states, i - 1);
        assert(plain_step(states[i - 1], states[i]));
        lemma_counter_plus_step(c0, i);
    }
}

/// Any productions of one reseed-free run of at most 65536 productions are
/// pairwise distinct: the counter field alone takes a different value in each
/// of them.
pub proof fn lemma_run_productions_distinct(states: Seq<RawUUIDv6>, i: int, j: int)
    requires
        0 <= i < j < states.len(),
        states.len() <= 0x10000,
        forall|k: int|
            0 <= k < states.len() - 1 ==> plain_step(#[trigger] states[k], states[k + 1]),
    ensures
        uuid_bytes(states[i].spec_ts(), states[i].spec_counter(), states[i].spec_node())
            != uuid_bytes(states[j].spec_ts(), states[j].spec_counter(), states[j].spec_node()),
{
    lemma_chain_state(states, i);
    lemma_chain_state(states, j);
    let c0 = states[0].spec_counter();
    assert(counter_plus(c0, i) != counter_plus(c0, j)) by {
        let m = 0x10000int;
        vstd::arithmetic::div_mod::lemma_fundamental_div_mod(c0 + i, m);
        vstd::arithmetic::div_mod::lemma_fundamental_div_mod(c0 + j, m);
        if (c0 + i) % m == (c0 + j) % m {
            // the two counter readings would then differ by a positive
            // multiple of the cycle length, yet lie fewer than one cycle apart
            assert(j - i == m * ((c0 + j) / m) - m * ((c0 + i) / m));
        }
    }
    crate::layout::lemma_distinct_counters(
        states[i].spec_ts(),
        states[i].spec_counter(),
        states[i].spec_node(),
        states[j].spec_ts(),
        states[j].spec_counter(),
        states[j].spec_node(),
    );
}

/// The transition one production makes when the counter does wrap back to
/// its seed: the whole state is replaced by a freshly seeded one for the
/// same node.
pub open spec fn reseed_step(pre: RawUUIDv6, post: RawUUIDv6) -> bool {
    &&& next_counter(pre.spec_counter()) == pre.spec_initial_counter()
    &&& freshly_seeded(post)
    &&& post.spec_node() == pre.spec_node()
}

/// Epoch bounding: after 65536 productions from a freshly seeded generator,
/// at least one reseed has occurred. Each production makes either the plain
/// transition or the reseeding one, and 65536 plain transitions in a row
/// would carry the counter past every value of its cycle and back onto its
/// seed, which the plain transition excludes.
pub proof fn lemma_wraparound_forces_reseed(states: Seq<RawUUIDv6>)
    requires
        states.len() == 0x10001,
        freshly_seeded(states[0]),
        forall|j: int|
            0 <= j < 0x10000 ==> plain_step(#[trigger] states[j], states[j + 1]) || reseed_step(
                states[j],
                states[j + 1],
            ),
    ensures
        exists|j: int| 0 <= j < 0x10000 && reseed_step(#[trigger] states[j], states[j + 1]),
{
    assert(exists|j: int| 0 <= j < 0x10000 && !plain_step(#[trigger] states[j], states[j + 1]))
        by {
        if forall|j: int| 0 <= j < 0x10000 ==> plain_step(#[trigger] states[j], states[j + 1]) {
            lemma_chain_state(states, 0x10000);
            let c0 = states[0].spec_counter();
            assert(counter_plus(c0, 0x10000) == c0) by {
                vstd::arithmetic::div_mod::lemma_fundamental_div_mod_converse_mod(
                    c0 + 0x10000,
                    0x10000,
                    1,
                    c0 as int,
                );
            }
            // the last transition wrapped the counter back onto the seed,
            // which the plain transition excludes
            assert(plain_step(states[0xffff], states[0x10000]));
        }
    }
    let j = choose|j: int| 0 <= j < 0x10000 && !plain_step(#[trigger] states[j], states[j + 1]);
    assert(reseed_step(states[j], states[j + 1]));
}

} // verus!
