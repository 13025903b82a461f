//! Executable encoders and decoders for each supported integer type.
//!
//! Three loops do the work for every width: one splits a number into its
//! little-endian bytes, one reads a number back from them, and one reverses a
//! buffer, which turns either order into the other.

use vstd::prelude::*;
use crate::layout::{
    be_bytes, be_value, le_bytes, le_value, lemma_le_value_bound, lemma_radix_pow_monotone,
    lemma_radix_pow_values, pattern_of, radix_pow, signed_of,
};

verus! {

/// The `N` low bytes of `v`, least significant first.
pub fn le_array<const N: usize>(v: u128) -> (out: [u8; N])
    ensures
        out@ == le_bytes(v as nat, N as nat),
{
    let mut out = [0u8; N];
    let mut rest: u128 = v;
    let mut i: usize = 0;
    while i < N
        invariant
            i <= N,
            out@.len() == N,
            le_bytes(v as nat, N as nat) == out@.subrange(0, i as int) + le_bytes(
                rest as nat,
                (N - i) as nat,
            ),
        decreases N - i,
    {
        let ghost before = out@;
        let ghost tail = le_bytes((rest / 256) as nat, (N - i - 1) as nat);
        let digit: u8 = (rest % 256) as u8;
        out[i] = digit;
        proof {
            assert(out@.subrange(0, i + 1) + tail =~= before.subrange(0, i as int) + (seq![digit]
                + tail));
        }
        rest = rest / 256;
        i += 1;
    }
    proof {
        assert(out@.subrange(0, N as int) + le_bytes(rest as nat, 0) =~= out@);
    }
    out
}

/// The number that `buf` holds, least significant byte first. A `u128` has
/// room for 16 bytes, so `buf` may not be longer.
pub fn le_number<const N: usize>(buf: &[u8; N]) -> (v: u128)
    requires
        N <= 16,
    ensures
        v == le_value(buf@),
{
    let mut v: u128 = 0;
    let mut i: usize = N;
    while i > 0
        invariant
            i <= N <= 16,
            buf@.len() == N,
            v == le_value(buf@.subrange(i as int, N as int)),
        decreases i,
    {
        proof {
            let tail = buf@.subrange(i as int, N as int);
            lemma_le_value_bound(tail);
            lemma_radix_pow_monotone(tail.len(), 15);
            lemma_radix_pow_values();
            assert(buf@.subrange(i - 1, N as int).drop_first() =~= tail);
        }
        i -= 1;
        v = v * 256 + buf[i] as u128;
    }
    proof {
        assert(buf@.subrange(0, N as int) =~= buf@);
    }
    v
}

/// The bytes of `buf` in the opposite order.
pub fn reversed<const N: usize>(buf: &[u8; N]) -> (out: [u8; N])
    ensures
        out@ == buf@.reverse(),
{
    let mut out = [0u8; N];
    let mut i: usize = 0;
    while i < N
        invariant
            i <= N,
            out@.len() == N,
            buf@.len() == N,
            forall|j: int| 0 <= j < i ==> out@[j] == buf@[N - 1 - j],
        decreases N - i,
    {
        out[i] = buf[N - 1 - i];
        i += 1;
    }
    proof {
        assert(out@ =~= buf@.reverse());
    }
    out
}

/// `v` as 2 bytes, least significant first.
pub fn encode_u16_le(v: u16) -> (out: [u8; 2])
    ensures
        out@ == le_bytes(v as nat, 2),
{
    le_array::<2>(v as u128)
}

/// `v` as 2 bytes, most significant first.
pub fn encode_u16_be(v: u16) -> (out: [u8; 2])
    ensures
        out@ == be_bytes(v as nat, 2),
{
    reversed(&encode_u16_le(v))
}

/// The number that `buf` holds, least significant byte first.
pub fn decode_u16_le(buf: &[u8; 2]) -> (v: u16)
    ensures
        v == le_value(buf@),
{
    proof {
        lemma_le_value_bound(buf@);
        lemma_radix_pow_values();
    }
    le_number::<2>(buf) as u16
}

/// The number that `buf` holds, most significant byte first.
pub fn decode_u16_be(buf: &[u8; 2]) -> (v: u16)
    ensures
        v == be_value(buf@),
{
    decode_u16_le(&reversed(buf))
}

/// `v` as 4 bytes, least significant first.
pub fn encode_u32_le(v: u32) -> (out: [u8; 4])
    ensures
        out@ == le_bytes(v as nat, 4),
{
    le_array::<4>(v as u128)
}

/// `v` as 4 bytes, most significant first.
pub fn encode_u32_be(v: u32) -> (out: [u8; 4])
    ensures
        out@ == be_bytes(v as nat, 4),
{
    reversed(&encode_u32_le(v))
}

/// The number that `buf` holds, least significant byte first.
pub fn decode_u32_le(buf: &[u8; 4]) -> (v: u32)
    ensures
        v == le_value(buf@),
{
    proof {
        lemma_le_value_bound(buf@);
        lemma_radix_pow_values();
    }
    le_number::<4>(buf) as u32
}

/// The number that `buf` holds, most significant byte first.
pub fn decode_u32_be(buf: &[u8; 4]) -> (v: u32)
    ensures
        v == be_value(buf@),
{
    decode_u32_le(&reversed(buf))
}

/// `v` as 8 bytes, least significant first.
pub fn encode_u64_le(v: u64) -> (out: [u8; 8])
    ensures
        out@ == le_bytes(v as nat, 8),
{
    le_array::<8>(v as u128)
}

/// `v` as 8 bytes, most significant first.
pub fn encode_u64_be(v: u64) -> (out: [u8; 8])
    ensures
        out@ == be_bytes(v as nat, 8),
{
    reversed(&encode_u64_le(v))
}

/// The number that `buf` holds, least significant byte first.
pub fn decode_u64_le(buf: &[u8; 8]) -> (v: u64)
    ensures
        v == le_value(buf@),
{
    proof {
        lemma_le_value_bound(buf@);
        lemma_radix_pow_values();
    }
    le_number::<8>(buf) as u64
}

/// The number that `buf` holds, most significant byte first.
pub fn decode_u64_be(buf: &[u8; 8]) -> (v: u64)
    ensures
        v == be_value(buf@),
{
    decode_u64_le(&reversed(buf))
}

/// `v` as 16 bytes, least significant first.
pub fn encode_u128_le(v: u128) -> (out: [u8; 16])
    ensures
        out@ == le_bytes(v as nat, 16),
{
    le_array::<16>(v)
}

/// `v` as 16 bytes, most significant first.
pub fn encode_u128_be(v: u128) -> (out: [u8; 16])
    ensures
        out@ == be_bytes(v as nat, 16),
{
    reversed(&encode_u128_le(v))
}

/// The number that `buf` holds, least significant byte first.
pub fn decode_u128_le(buf: &[u8; 16]) -> (v: u128)
    ensures
        v == le_value(buf@),
{
    proof {
        lemma_le_value_bound(buf@);
        lemma_radix_pow_values();
    }
    le_number::<16>(buf)
}

/// The number that `buf` holds, most significant byte first.
pub fn decode_u128_be(buf: &[u8; 16]) -> (v: u128)
    ensures
        v == be_value(buf@),
{
    decode_u128_le(&reversed(buf))
}

/// The two's-complement pattern of `v`.
pub fn i16_pattern(v: i16) -> (u: u16)
    ensures
        u == pattern_of(v as int, 2),
{
    proof {
        lemma_radix_pow_values();
    }
    if v >= 0 {
        v as u16
    } else {
        (v - i16::MIN) as u16 + 0x8000
    }
}

/// The signed integer whose two's-complement pattern is `u`.
pub fn i16_from_pattern(u: u16) -> (v: i16)
    ensures
        v == signed_of(u as nat, 2),
{
    proof {
        lemma_radix_pow_values();
    }
    if u >= 0x8000 {
        (u - 0x8000) as i16 + i16::MIN
    } else {
        u as i16
    }
}

/// The two's-complement pattern of `v` as 2 bytes, least significant first.
pub fn encode_i16_le(v: i16) -> (out: [u8; 2])
    ensures
        out@ == le_bytes(pattern_of(v as int, 2), 2),
{
    encode_u16_le(i16_pattern(v))
}

/// The two's-complement pattern of `v` as 2 bytes, most significant first.
pub fn encode_i16_be(v: i16) -> (out: [u8; 2])
    ensures
        out@ == be_bytes(pattern_of(v as int, 2), 2),
{
    encode_u16_be(i16_pattern(v))
}

/// The signed integer whose pattern `buf` holds, least significant byte first.
pub fn decode_i16_le(buf: &[u8; 2]) -> (v: i16)
    ensures
        v == signed_of(le_value(buf@), 2),
{
    i16_from_pattern(decode_u16_le(buf))
}

/// The signed integer whose pattern `buf` holds, most significant byte first.
pub fn decode_i16_be(buf: &[u8; 2]) -> (v: i16)
    ensures
        v == signed_of(be_value(buf@), 2),
{
    i16_from_pattern(decode_u16_be(buf))
}

/// The two's-complement pattern of `v`.
pub fn i32_pattern(v: i32) -> (u: u32)
    ensures
        u == pattern_of(v as int, 4),
{
    proof {
        lemma_radix_pow_values();
    }
    if v >= 0 {
        v as u32
    } else {
        (v - i32::MIN) as u32 + 0x8000_0000
    }
}

/// The signed integer whose two's-complement pattern is `u`.
pub fn i32_from_pattern(u: u32) -> (v: i32)
    ensures
        v == signed_of(u as nat, 4),
{
    proof {
        lemma_radix_pow_values();
    }
    if u >= 0x8000_0000 {
        (u - 0x8000_0000) as i32 + i32::MIN
    } else {
        u as i32
    }
}

/// The two's-complement pattern of `v` as 4 bytes, least significant first.
pub fn encode_i32_le(v: i32) -> (out: [u8; 4])
    ensures
        out@ == le_bytes(pattern_of(v as int, 4), 4),
{
    encode_u32_le(i32_pattern(v))
}

/// The two's-complement pattern of `v` as 4 bytes, most significant first.
pub fn encode_i32_be(v: i32) -> (out: [u8; 4])
    ensures
        out@ == be_bytes(pattern_of(v as int, 4), 4),
{
    encode_u32_be(i32_pattern(v))
}

/// The signed integer whose pattern `buf` holds, least significant byte first.
pub fn decode_i32_le(buf: &[u8; 4]) -> (v: i32)
    ensures
        v == signed_of(le_value(buf@), 4),
{
    i32_from_pattern(decode_u32_le(buf))
}

/// The signed integer whose pattern `buf` holds, most significant byte first.
pub fn decode_i32_be(buf: &[u8; 4]) -> (v: i32)
    ensures
        v == signed_of(be_value(buf@), 4),
{
    i32_from_pattern(decode_u32_be(buf))
}

/// The two's-complement pattern of `v`.
pub fn i64_pattern(v: i64) -> (u: u64)
    ensures
        u == pattern_of(v as int, 8),
{
    proof {
        lemma_radix_pow_values();
    }
    if v >= 0 {
        v as u64
    } else {
        (v - i64::MIN) as u64 + 0x8000_0000_0000_0000
    }
}

/// The signed integer whose two's-complement pattern is `u`.
pub fn i64_from_pattern(u: u64) -> (v: i64)
    ensures
        v == signed_of(u as nat, 8),
{
    proof {
        lemma_radix_pow_values();
    }
    if u >= 0x8000_0000_0000_0000 {
        (u - 0x8000_0000_0000_0000) as i64 + i64::MIN
    } else {
        u as i64
    }
}

/// The two's-complement pattern of `v` as 8 bytes, least significant first.
pub fn encode_i64_le(v: i64) -> (out: [u8; 8])
    ensures
        out@ == le_bytes(pattern_of(v as int, 8), 8),
{
    encode_u64_le(i64_pattern(v))
}

/// The two's-complement pattern of `v` as 8 bytes, most significant first.
pub fn encode_i64_be(v: i64) -> (out: [u8; 8])
    ensures
        out@ == be_bytes(pattern_of(v as int, 8), 8),
{
    encode_u64_be(i64_pattern(v))
}

/// The signed integer whose pattern `buf` holds, least significant byte first.
pub fn decode_i64_le(buf: &[u8; 8]) -> (v: i64)
    ensures
        v == signed_of(le_value(buf@), 8),
{
    i64_from_pattern(decode_u64_le(buf))
}

/// The signed integer whose pattern `buf` holds, most significant byte first.
pub fn decode_i64_be(buf: &[u8; 8]) -> (v: i64)
    ensures
        v == signed_of(be_value(buf@), 8),
{
    i64_from_pattern(decode_u64_be(buf))
}

/// The two's-complement pattern of `v`.
pub fn i128_pattern(v: i128) -> (u: u128)
    ensures
        u == pattern_of(v as int, 16),
{
    proof {
        lemma_radix_pow_values();
    }
    if v >= 0 {
        v as u128
    } else {
        (v - i128::MIN) as u128 + 0x8000_0000_0000_0000_0000_0000_0000_0000
    }
}

/// The signed integer whose two's-complement pattern is `u`.
pub fn i128_from_pattern(u: u128) -> (v: i128)
    ensures
        v == signed_of(u as nat, 16),
{
    proof {
        lemma_radix_pow_values();
    }
    if u >= 0x8000_0000_0000_0000_0000_0000_0000_0000 {
        (u - 0x8000_0000_0000_0000_0000_0000_0000_0000) as i128 + i128::MIN
    } else {
        u as i128
    }
}

/// The two's-complement pattern of `v` as 16 bytes, least significant first.
pub fn encode_i128_le(v: i128) -> (out: [u8; 16])
    ensures
        out@ == le_bytes(pattern_of(v as int, 16), 16),
{
    encode_u128_le(i128_pattern(v))
}

/// The two's-complement pattern of `v` as 16 bytes, most significant first.
pub fn encode_i128_be(v: i128) -> (out: [u8; 16])
    ensures
        out@ == be_bytes(pattern_of(v as int, 16), 16),
{
    encode_u128_be(i128_pattern(v))
}

/// The signed integer whose pattern `buf` holds, least significant byte first.
pub fn decode_i128_le(buf: &[u8; 16]) -> (v: i128)
    ensures
        v == signed_of(le_value(buf@), 16),
{
    i128_from_pattern(decode_u128_le(buf))
}

/// The signed integer whose pattern `buf` holds, most significant byte first.
pub fn decode_i128_be(buf: &[u8; 16]) -> (v: i128)
    ensures
        v == signed_of(be_value(buf@), 16),
{
    i128_from_pattern(decode_u128_be(buf))
}

} // verus!
