//! The canonical text form of an identifier: lowercase hex expansion of the
//! 16 raw bytes with hyphens at positions 8, 13, 18 and 23, and the proof
//! that the text decodes back to exactly the bytes it came from.

use vstd::prelude::*;
use vstd::seq_lib::*;

verus! {

/// The ASCII hyphen that separates the five groups of the text form.
pub const HYPHEN: u8 = 0x2d;

/// The ASCII byte of the lowercase hex digit for one nibble.
pub open spec fn hex_digit(n: u8) -> u8
    recommends
        n < 16,
{
    if n < 10 {
        (0x30 + n) as u8
    } else {
        (0x57 + n) as u8
    }
}

/// The hex expansion of a byte sequence: two lowercase digits per byte, high
/// nibble first.
pub open spec fn hex_bytes(b: Seq<u8>) -> Seq<u8> {
    Seq::new(
        2 * b.len(),
        |i: int|
            if i % 2 == 0 {
                hex_digit(b[i / 2] >> 4)
            } else {
                hex_digit(b[i / 2] & 0x0f)
            },
    )
}

/// The 36 ASCII bytes of the canonical text form of a 16-byte identifier:
/// byte ranges [0,4), [4,6), [6,8), [8,10) and [10,16) hex-expanded, with a
/// hyphen between consecutive groups.
pub open spec fn uuid_text(b: Seq<u8>) -> Seq<u8>
    recommends
        b.len() == 16,
{
    hex_bytes(b.subrange(0, 4)) + seq![HYPHEN] + hex_bytes(b.subrange(4, 6)) + seq![HYPHEN]
        + hex_bytes(b.subrange(6, 8)) + seq![HYPHEN] + hex_bytes(b.subrange(8, 10)) + seq![HYPHEN]
        + hex_bytes(b.subrange(10, 16))
}

/// The text form as the characters of a string: pure ASCII, one character
/// per byte.
pub open spec fn uuid_chars(b: Seq<u8>) -> Seq<char> {
    uuid_text(b).map_values(|a: u8| a as char)
}

/// A lowercase hex digit, as a character.
pub open spec fn is_lower_hex_char(c: char) -> bool {
    (48 <= c as u32 && c as u32 <= 57) || (97 <= c as u32 && c as u32 <= 102)
}

/// Append the lowercase hex expansion of `bin` to `out`, two digits per byte.
pub fn hex_format(out: &mut Vec<u8>, bin: &[u8])
    ensures
        final(out)@ == old(out)@ + hex_bytes(bin@),
{
    let n = bin.len();
    let mut i: usize = 0;
    while i < n
        invariant
            n == bin@.len(),
            i <= n,
            out@ == old(out)@ + hex_bytes(bin@.take(i as int)),
        decreases n - i,
    {
        let b = bin[i];
        proof {
            assert(b >> 4 < 16 && b & 0x0f < 16) by (bit_vector);
        }
        let hi = b >> 4;
        let lo = b & 0x0f;
        let dh = if hi < 10 {
            0x30 + hi
        } else {
            0x57 + hi
        };
        let dl = if lo < 10 {
            0x30 + lo
        } else {
            0x57 + lo
        };
        out.push(dh);
        out.push(dl);
        proof {
            assert(out@ =~= old(out)@ + hex_bytes(bin@.take(i as int + 1)));
        }
        i += 1;
    }
    proof {
        assert(bin@.take(n as int) =~= bin@);
    }
}

/// Every nibble is below 16.
proof fn lemma_nibbles_bounded()
    by (bit_vector)
    ensures
        forall|b: u8| #[trigger] (b >> 4) < 16,
        forall|b: u8| #[trigger] (b & 0x0f) < 16,
{
}

/// A hex digit byte is never the hyphen.
proof fn lemma_hex_digit_not_hyphen(n: u8)
    requires
        n < 16,
    ensures
        hex_digit(n) != HYPHEN,
{
}

/// A filter that keeps every element of a sequence returns it unchanged.
proof fn lemma_filter_keeps_all<A>(s: Seq<A>, pred: spec_fn(A) -> bool)
    requires
        forall|i: int| 0 <= i < s.len() ==> pred(s[i]),
    ensures
        s.filter(pred) == s,
    decreases s.len(),
{
    reveal(Seq::filter);
    if s.len() == 0 {
        assert(s.filter(pred) =~= s);
    } else {
        lemma_filter_keeps_all(s.drop_last(), pred);
        assert(s.filter(pred) =~= s);
    }
}

/// Hex expansion distributes over concatenation.
proof fn lemma_hex_bytes_concat(x: Seq<u8>, y: Seq<u8>)
    ensures
        hex_bytes(x + y) =~= hex_bytes(x) + hex_bytes(y),
{
}

/// The value of a lowercase hex digit byte.
pub open spec fn hex_val(d: u8) -> u8 {
    if d >= 0x61 {
        (d - 0x57) as u8
    } else {
        (d - 0x30) as u8
    }
}

/// The text form with its hyphens removed.
pub open spec fn strip_hyphens(t: Seq<u8>) -> Seq<u8> {
    t.filter(|a: u8| a != HYPHEN)
}

/// The bytes read back from a sequence of hex digit bytes, one byte per pair
/// of digits, high nibble first.
pub open spec fn decode_hex(t: Seq<u8>) -> Seq<u8> {
    Seq::new(t.len() / 2, |i: int| ((hex_val(t[2 * i]) << 4) | hex_val(t[2 * i + 1])) as u8)
}

/// Reading the digit of a nibble back gives the nibble.
proof fn lemma_hex_val_of_digit(n: u8)
    requires
        n < 16,
    ensures
        hex_val(hex_digit(n)) == n,
{
}

/// Decoding undoes hex expansion.
proof fn lemma_decode_hex_bytes(b: Seq<u8>)
    ensures
        decode_hex(hex_bytes(b)) =~= b,
{
    lemma_nibbles_bounded();
    assert forall|i: int| 0 <= i < b.len() implies decode_hex(hex_bytes(b))[i] == b[i] by {
        let x = b[i];
        lemma_hex_val_of_digit(x >> 4);
        lemma_hex_val_of_digit(x & 0x0f);
        assert(((x >> 4) << 4 | (x & 0x0f)) == x) by (bit_vector);
    }
}

/// Stripping the hyphens out of the text form leaves exactly the hex
/// expansion of all 16 bytes.
proof fn lemma_strip_uuid_text(b: Seq<u8>)
    requires
        b.len() == 16,
    ensures
        strip_hyphens(uuid_text(b)) == hex_bytes(b),
{
    lemma_nibbles_bounded();
    let pred = |a: u8| a != HYPHEN;
    broadcast use Seq::filter_distributes_over_add;

    assert forall|s: Seq<u8>| #[trigger] hex_bytes(s).filter(pred) == hex_bytes(s) by {
        assert forall|j: int| 0 <= j < hex_bytes(s).len() implies pred(hex_bytes(s)[j]) by {
            if j % 2 == 0 {
                lemma_hex_digit_not_hyphen(s[j / 2] >> 4);
            } else {
                lemma_hex_digit_not_hyphen(s[j / 2] & 0x0f);
            }
        }
        lemma_filter_keeps_all(hex_bytes(s), pred);
    }
    assert(seq![HYPHEN].filter(pred) =~= Seq::<u8>::empty()) by {
        reveal_with_fuel(Seq::filter, 2);
        assert(seq![HYPHEN].drop_last() =~= Seq::<u8>::empty());
        assert(seq![HYPHEN].last() == HYPHEN);
        assert(!pred(HYPHEN));
    }
    lemma_hex_bytes_concat(b.subrange(0, 4), b.subrange(4, 6));
    assert(b.subrange(0, 4) + b.subrange(4, 6) =~= b.subrange(0, 6));
    lemma_hex_bytes_concat(b.subrange(0, 6), b.subrange(6, 8));
    assert(b.subrange(0, 6) + b.subrange(6, 8) =~= b.subrange(0, 8));
    lemma_hex_bytes_concat(b.subrange(0, 8), b.subrange(8, 10));
    assert(b.subrange(0, 8) + b.subrange(8, 10) =~= b.subrange(0, 10));
    lemma_hex_bytes_concat(b.subrange(0, 10), b.subrange(10, 16));
    assert(b.subrange(0, 10) + b.subrange(10, 16) =~= b);
    assert(strip_hyphens(uuid_text(b)) =~= hex_bytes(b));
}

/// The text form is pure ASCII: every byte of it is below 128.
pub proof fn lemma_uuid_text_ascii(b: Seq<u8>)
    requires
        b.len() == 16,
    ensures
        forall|i: int| 0 <= i < uuid_text(b).len() ==> #[trigger] uuid_text(b)[i] < 128,
{
    lemma_nibbles_bounded();
    let t = uuid_text(b);
    assert forall|i: int| 0 <= i < t.len() implies t[i] < 128 by {
        if i == 8 || i == 13 || i == 18 || i == 23 {
            assert(t[i] == HYPHEN);
        } else if i < 8 {
            let s = b.subrange(0, 4);
            assert(t[i] == hex_bytes(s)[i]);
        } else if i < 13 {
            let s = b.subrange(4, 6);
            assert(t[i] == hex_bytes(s)[i - 9]);
        } else if i < 18 {
            let s = b.subrange(6, 8);
            assert(t[i] == hex_bytes(s)[i - 14]);
        } else if i < 23 {
            let s = b.subrange(8, 10);
            assert(t[i] == hex_bytes(s)[i - 19]);
        } else {
            let s = b.subrange(10, 16);
            assert(t[i] == hex_bytes(s)[i - 24]);
        }
    }
}

/// The round trip between the two forms of one identifier: decoding the hex
/// digits of the text form, hyphens stripped, reproduces exactly the 16 raw
/// bytes it was produced from.
pub proof fn lemma_text_round_trip(b: Seq<u8>)
    requires
        b.len() == 16,
    ensures
        decode_hex(strip_hyphens(uuid_text(b))) == b,
{
    lemma_strip_uuid_text(b);
    lemma_decode_hex_bytes(b);
}

/// The shape of the text form: always exactly 36 characters, a hyphen at
/// positions 8, 13, 18 and 23 and a lowercase hex digit everywhere else.
pub proof fn lemma_text_shape(b: Seq<u8>)
    requires
        b.len() == 16,
    ensures
        uuid_chars(b).len() == 36,
        uuid_chars(b)[8] == '-',
        uuid_chars(b)[13] == '-',
        uuid_chars(b)[18] == '-',
        uuid_chars(b)[23] == '-',
        forall|i: int|
            0 <= i < 36 && i != 8 && i != 13 && i != 18 && i != 23 ==> is_lower_hex_char(
                #[trigger] uuid_chars(b)[i],
            ),
{
    lemma_nibbles_bounded();
    let t = uuid_text(b);
    assert(t.len() == 36);
    assert forall|i: int| 0 <= i < 36 && i != 8 && i != 13 && i != 18 && i != 23 implies is_lower_hex_char(
        uuid_chars(b)[i],
    ) by {
        assert(uuid_chars(b)[i] == t[i] as char);
        assert(exists|n: u8| n < 16 && t[i] == hex_digit(n)) by {
            if i < 8 {
                let s = b.subrange(0, 4);
                if i % 2 == 0 {
                    assert(t[i] == hex_digit(s[i / 2] >> 4));
                } else {
                    assert(t[i] == hex_digit(s[i / 2] & 0x0f));
                }
            } else if i < 13 {
                let s = b.subrange(4, 6);
                let j = i - 9;
                if j % 2 == 0 {
                    assert(t[i] == hex_digit(s[j / 2] >> 4));
                } else {
                    assert(t[i] == hex_digit(s[j / 2] & 0x0f));
                }
            } else if i < 18 {
                let s = b.subrange(6, 8);
                let j = i - 14;
                if j % 2 == 0 {
                    assert(t[i] == hex_digit(s[j / 2] >> 4));
                } else {
                    assert(t[i] == hex_digit(s[j / 2] & 0x0f));
                }
            } else if i < 23 {
                let s = b.subrange(8, 10);
                let j = i - 19;
                if j % 2 == 0 {
                    assert(t[i] == hex_digit(s[j / 2] >> 4));
                } else {
                    assert(t[i] == hex_digit(s[j / 2] & 0x0f));
                }
            } else {
                let s = b.subrange(10, 16);
                let j = i - 24;
                if j % 2 == 0 {
                    assert(t[i] == hex_digit(s[j / 2] >> 4));
                } else {
                    assert(t[i] == hex_digit(s[j / 2] & 0x0f));
                }
            }
        }
        let n = choose|n: u8| n < 16 && t[i] == hex_digit(n);
        assert(48 <= hex_digit(n) <= 57 || 97 <= hex_digit(n) <= 102);
    }
}

} // verus!
