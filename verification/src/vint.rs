//! The vint64 variable-length encoding of unsigned 64-bit integers.
//!
//! A value is encoded in 1 to 9 bytes. For lengths below nine, the low bits
//! of the first byte describe the length in unary: the count of trailing zero
//! bits of the first byte is one less than the total length, and the value's
//! bits sit above the terminating marker bit, continuing across the further
//! bytes in little-endian order. Values of at least 2^56 use an escape form:
//! a zero lead byte followed by the eight raw little-endian bytes.

use vstd::prelude::*;
use vstd::std_specs::bits::u64_leading_zeros;
use vstd::std_specs::bits::axiom_u64_leading_zeros;
use vstd::std_specs::bits::u8_trailing_zeros;
use vstd::std_specs::bits::axiom_u8_trailing_zeros;

verus! {

/// The number of bytes the vint64 encoding of `v` occupies: one byte per
/// started 7-bit group, with a ninth escape byte for values of 2^56 and up.
pub open spec fn vint_len(v: u64) -> int {
    if v < 0x80 {
        1
    } else if v < 0x4000 {
        2
    } else if v < 0x20_0000 {
        3
    } else if v < 0x1000_0000 {
        4
    } else if v < 0x8_0000_0000 {
        5
    } else if v < 0x400_0000_0000 {
        6
    } else if v < 0x2_0000_0000_0000 {
        7
    } else if v < 0x100_0000_0000_0000 {
        8
    } else {
        9
    }
}

/// The low `n` bytes of `x`, least significant first.
pub open spec fn le_bytes(x: u64, n: int) -> Seq<u8> {
    Seq::new(n as nat, |i: int| ((x >> ((8 * i) as u64)) & 0xff) as u8)
}

/// The quantity whose low `vint_len(v)` bytes form the encoding of `v` when
/// the escape form is not used: the value shifted up past a single marker
/// bit that records the length in unary.
pub open spec fn vint_marked(v: u64) -> u64 {
    ((v << 1) | 1) << ((vint_len(v) - 1) as u64)
}

/// The vint64 encoding of `v` as a byte sequence.
pub open spec fn vint_enc(v: u64) -> Seq<u8> {
    if vint_len(v) == 9 {
        seq![0u8] + le_bytes(v, 8)
    } else {
        le_bytes(vint_marked(v), vint_len(v))
    }
}

/// The integer value of a little-endian byte sequence.
pub open spec fn le_val(s: Seq<u8>) -> int
    decreases s.len(),
{
    if s.len() == 0 {
        0
    } else {
        s[0] + 0x100 * le_val(s.subrange(1, s.len() as int))
    }
}

/// What a reader makes of a byte sequence that starts with a vint64
/// encoding: a zero lead byte announces eight raw little-endian bytes;
/// otherwise the count of trailing zero bits of the lead byte is one less
/// than the length, and shifting the little-endian quantity right by the
/// length discards the marker and recovers the value.
pub open spec fn vint_dec(s: Seq<u8>) -> u64 {
    if s.len() == 0 {
        0
    } else if s[0] == 0u8 {
        le_val(s.subrange(1, 9)) as u64
    } else {
        let l = u8_trailing_zeros(s[0]) + 1;
        (le_val(s.subrange(0, l as int)) as u64) >> (l as u64)
    }
}

/// The encoding of every value occupies between one and nine bytes, and
/// the length never decreases as the value grows.
pub proof fn lemma_vint_len_bounds(v: u64)
    ensures
        1 <= vint_len(v) <= 9,
        vint_enc(v).len() == vint_len(v),
{
}

/// The encoded length is monotone: a value no smaller than another never
/// takes fewer bytes.
pub proof fn lemma_vint_len_monotonic(v1: u64, v2: u64)
    requires
        v1 <= v2,
    ensures
        vint_len(v1) <= vint_len(v2),
{
}

/// The leading-zero count of `v` determines `vint_len(v)` through the
/// 7-bit-group computation that `encoded_len` performs.
proof fn lemma_vint_len_from_leading_zeros(v: u64)
    ensures
        ({
            let z = u64_leading_zeros(v);
            let g: int = if z == 0 {
                0
            } else {
                (z - 1) / 7
            };
            vint_len(v) == 9 - (if g < 8 {
                g
            } else {
                8
            })
        }),
{
    axiom_u64_leading_zeros(v);
    let z = u64_leading_zeros(v);
    let zu: u64 = z as u64;
    assert((zu >= 57 <==> v < 0x80) && (50 <= zu < 57 <==> 0x80 <= v < 0x4000) && (43 <= zu < 50
        <==> 0x4000 <= v < 0x20_0000) && (36 <= zu < 43 <==> 0x20_0000 <= v < 0x1000_0000) && (29
        <= zu < 36 <==> 0x1000_0000 <= v < 0x8_0000_0000) && (22 <= zu < 29 <==> 0x8_0000_0000 <= v
        < 0x400_0000_0000) && (15 <= zu < 22 <==> 0x400_0000_0000 <= v < 0x2_0000_0000_0000) && (8
        <= zu < 15 <==> 0x2_0000_0000_0000 <= v < 0x100_0000_0000_0000) && (zu < 8 <==> v
        >= 0x100_0000_0000_0000)) by (bit_vector)
        requires
            zu <= 64,
            v == 0 <==> zu == 64,
            zu < 64 ==> (v >> ((63 - zu) as u64)) & 1u64 != 0u64,
            v >> ((64 - zu) as u64) == 0u64,
    ;
}

/// Discarding the lowest byte of `x` moves every remaining byte down one
/// place.
proof fn lemma_shift_byte(x: u64, i: u64)
    by (bit_vector)
    requires
        i < 8,
    ensures
        (x >> 8) >> ((8 * i) as u64) == x >> ((8 * i + 8) as u64),
{
}

/// A little-endian byte sequence holding the low `n` bytes of `x` evaluates
/// back to `x`, provided the bytes above the first `n` are zero.
proof fn lemma_le_val_of_le_bytes(x: u64, n: int)
    requires
        0 <= n <= 8,
        n < 8 ==> x >> ((8 * n) as u64) == 0,
    ensures
        le_val(le_bytes(x, n)) == x,
    decreases n,
{
    if n == 0 {
        assert(x >> ((8 * 0) as u64) == x) by (bit_vector);
    } else {
        let s = le_bytes(x, n);
        let tail = le_bytes(x >> 8, n - 1);
        assert forall|j: int| 0 <= j < n - 1 implies s[j + 1] == tail[j] by {
            lemma_shift_byte(x, j as u64);
        }
        assert(s.subrange(1, n) =~= tail);
        if n < 8 {
            lemma_shift_byte(x, (n - 1) as u64);
        } else {
            assert((x >> 8) >> ((8 * 7) as u64) == 0) by (bit_vector);
        }
        lemma_le_val_of_le_bytes(x >> 8, n - 1);
        assert(le_val(s) == s[0] + 0x100 * le_val(s.subrange(1, n)));
        assert(s[0] == ((x >> ((8 * 0) as u64)) & 0xff) as u8);
        assert(((x >> ((8 * 0) as u64)) & 0xff) < 0x100 && x == ((x >> ((8 * 0) as u64)) & 0xff)
            + 0x100 * (x >> 8)) by (bit_vector);
    }
}

/// A byte whose bit `t` is set while every lower bit is clear has exactly
/// `t` trailing zeros.
proof fn lemma_u8_trailing_zeros_is(b: u8, t: u32)
    requires
        t < 8,
        (b >> (t as u8)) & 1 == 1,
        forall|j: u8| j < t ==> (b >> j) & 1 == 0,
    ensures
        u8_trailing_zeros(b) == t,
{
    axiom_u8_trailing_zeros(b);
    let tz = u8_trailing_zeros(b);
    if b == 0 {
        assert((b >> (t as u8)) & 1 == 0);
    }
    if tz < t {
        assert((b >> (tz as u8)) & 1 == 0);
    }
    if tz > t {
        assert((b >> (t as u8)) & 1 == 0);
    }
}

/// Decoding inverts encoding: reading back the vint64 byte sequence of any
/// value, zero and the largest 64-bit value included, yields that value.
pub proof fn lemma_vint_round_trip(v: u64)
    ensures
        vint_dec(vint_enc(v)) == v,
{
    let n = vint_len(v);
    let s = vint_enc(v);
    if n == 9 {
        assert(s.subrange(1, 9) =~= le_bytes(v, 8));
        lemma_le_val_of_le_bytes(v, 8);
    } else {
        let l: u64 = n as u64;
        let m = vint_marked(v);
        let b0: u8 = (m & 0xff) as u8;
        assert(v >> ((7 * l) as u64) == 0) by (bit_vector)
            requires
                1 <= l <= 8,
                l == 1 ==> v < 0x80,
                l == 2 ==> v < 0x4000,
                l == 3 ==> v < 0x20_0000,
                l == 4 ==> v < 0x1000_0000,
                l == 5 ==> v < 0x8_0000_0000,
                l == 6 ==> v < 0x400_0000_0000,
                l == 7 ==> v < 0x2_0000_0000_0000,
                l == 8 ==> v < 0x100_0000_0000_0000,
        ;
        assert((m >> ((8 * l) as u64) == 0) && (m >> l == v) && ((b0 >> ((l - 1) as u8)) & 1 == 1)
            && (b0 != 0) && (forall|j: u8| j < ((l - 1) as u8) ==> (b0 >> j) & 1 == 0) && ((m >> ((
        8 * 0) as u64)) & 0xff == m & 0xff)) by (bit_vector)
            requires
                1 <= l <= 8,
                v >> ((7 * l) as u64) == 0,
                m == ((v << 1) | 1) << ((l - 1) as u64),
                b0 == (m & 0xff) as u8,
        ;
        lemma_u8_trailing_zeros_is(b0, (l - 1) as u32);
        assert(s[0] == b0);
        assert(s.subrange(0, n) =~= s);
        lemma_le_val_of_le_bytes(m, n);
    }
}

/// Encoding is a pure function of the value: equal inputs always give
/// identical byte sequences.
pub proof fn lemma_vint_enc_deterministic(v1: u64, v2: u64)
    requires
        v1 == v2,
    ensures
        vint_enc(v1) == vint_enc(v2),
{
}

/// Encoding is injective: distinct values never share a byte sequence.
pub proof fn lemma_vint_enc_injective(v1: u64, v2: u64)
    requires
        v1 != v2,
    ensures
        vint_enc(v1) != vint_enc(v2),
{
    lemma_vint_round_trip(v1);
    lemma_vint_round_trip(v2);
}

/// Returns the length of the value in vint64 encoding.
///
/// The length is computed over the full 64-bit width whatever the platform
/// word size, so the 9-byte escape boundary sits at 2^56 everywhere and the
/// wire format is identical across platforms.
pub fn encoded_len(value: usize) -> (len: usize)
    ensures
        len == vint_len(value as u64),
{
    let v: u64 = value as u64;
    let zeros: u32 = v.leading_zeros();
    let groups: u32 = zeros.saturating_sub(1) / 7;
    let capped: u32 = if groups < 8 {
        groups
    } else {
        8
    };
    proof {
        lemma_vint_len_from_leading_zeros(v);
    }
    (9 - capped) as usize
}

} // verus!
