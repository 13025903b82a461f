//! The byte layout of fixed-width integers, as mathematics and as code.
//!
//! An integer of `n` bytes is a natural number below `radix_pow(n)`. Its
//! little-endian form lists its base-256 digits from the least significant
//! one; its big-endian form is the same list reversed. Signed integers are
//! laid out through their two's-complement pattern.

use vstd::prelude::*;
use vstd::arithmetic::div_mod::lemma_div_denominator;

verus! {

/// `256^n`: the number of values that `n` bytes can hold.
pub open spec fn radix_pow(n: nat) -> nat
    decreases n,
{
    if n == 0 {
        1
    } else {
        256 * radix_pow((n - 1) as nat)
    }
}

/// The `n` low base-256 digits of `v`, least significant first.
pub open spec fn le_bytes(v: nat, n: nat) -> Seq<u8>
    decreases n,
{
    if n == 0 {
        Seq::empty()
    } else {
        seq![(v % 256) as u8] + le_bytes(v / 256, (n - 1) as nat)
    }
}

/// The `n` low base-256 digits of `v`, most significant first.
pub open spec fn be_bytes(v: nat, n: nat) -> Seq<u8> {
    le_bytes(v, n).reverse()
}

/// The number whose base-256 digits, least significant first, are `s`.
pub open spec fn le_value(s: Seq<u8>) -> nat
    decreases s.len(),
{
    if s.len() == 0 {
        0
    } else {
        s[0] as nat + 256 * le_value(s.drop_first())
    }
}

/// The number whose base-256 digits, most significant first, are `s`.
pub open spec fn be_value(s: Seq<u8>) -> nat {
    le_value(s.reverse())
}

/// The two's-complement pattern of `v` in `n` bytes, read as a natural number.
pub open spec fn pattern_of(v: int, n: nat) -> nat {
    if v < 0 {
        (v + radix_pow(n)) as nat
    } else {
        v as nat
    }
}

/// The signed integer whose two's-complement pattern in `n` bytes is `u`.
pub open spec fn signed_of(u: nat, n: nat) -> int {
    if 2 * u >= radix_pow(n) {
        u - radix_pow(n)
    } else {
        u as int
    }
}

/// A buffer of `n` zero bytes.
pub open spec fn zeros(n: nat) -> Seq<u8> {
    Seq::new(n, |i: int| 0u8)
}

/// The values of `radix_pow` at the byte counts of the supported widths.
pub proof fn lemma_radix_pow_values()
    ensures
        radix_pow(0) == 1,
        radix_pow(1) == 0x100,
        radix_pow(2) == 0x1_0000,
        radix_pow(4) == 0x1_0000_0000,
        radix_pow(8) == 0x1_0000_0000_0000_0000,
        radix_pow(16) == 0x1_0000_0000_0000_0000_0000_0000_0000_0000,
{
    reveal_with_fuel(radix_pow, 17);
}

/// `radix_pow` never decreases.
pub proof fn lemma_radix_pow_monotone(a: nat, b: nat)
    requires
        a <= b,
    ensures
        1 <= radix_pow(a) <= radix_pow(b),
    decreases b,
{
    if b > 0 {
        if a < b {
            lemma_radix_pow_monotone(a, (b - 1) as nat);
        } else {
            lemma_radix_pow_monotone((a - 1) as nat, (b - 1) as nat);
        }
    }
}

/// A little-endian form of `n` bytes has `n` bytes.
pub proof fn lemma_le_bytes_len(v: nat, n: nat)
    ensures
        le_bytes(v, n).len() == n,
    decreases n,
{
    if n > 0 {
        lemma_le_bytes_len(v / 256, (n - 1) as nat);
    }
}

/// `n` bytes hold a number below `radix_pow(n)`.
pub proof fn lemma_le_value_bound(s: Seq<u8>)
    ensures
        le_value(s) < radix_pow(s.len()),
    decreases s.len(),
{
    if s.len() > 0 {
        lemma_le_value_bound(s.drop_first());
    }
}

/// Round trip, unsigned, little-endian: for every width of `n` bytes and
/// every `v` that fits, decoding the encoded bytes gives `v`.
pub proof fn lemma_round_trip_unsigned_le(v: nat, n: nat)
    requires
        v < radix_pow(n),
    ensures
        le_value(le_bytes(v, n)) == v,
    decreases n,
{
    if n > 0 {
        lemma_round_trip_unsigned_le(v / 256, (n - 1) as nat);
        assert(le_bytes(v, n).drop_first() =~= le_bytes(v / 256, (n - 1) as nat));
    }
}

/// Encoding the number that `s` holds in little-endian order gives `s` back.
pub proof fn lemma_le_bytes_of_value(s: Seq<u8>)
    ensures
        le_bytes(le_value(s), s.len()) == s,
    decreases s.len(),
{
    if s.len() > 0 {
        lemma_le_bytes_of_value(s.drop_first());
    }
    assert(le_bytes(le_value(s), s.len()) =~= s);
}

/// Encoding the number that `s` holds in big-endian order gives `s` back.
pub proof fn lemma_be_bytes_of_value(s: Seq<u8>)
    ensures
        be_bytes(be_value(s), s.len()) == s,
{
    lemma_le_bytes_of_value(s.reverse());
    assert(s.reverse().reverse() =~= s);
}

/// Round trip, unsigned, big-endian: for every width of `n` bytes and every
/// `v` that fits, decoding the encoded bytes gives `v`.
pub proof fn lemma_round_trip_unsigned_be(v: nat, n: nat)
    requires
        v < radix_pow(n),
    ensures
        be_value(be_bytes(v, n)) == v,
{
    lemma_round_trip_unsigned_le(v, n);
    assert(le_bytes(v, n).reverse().reverse() =~= le_bytes(v, n));
}

/// The pattern of a signed integer that fits in `n` bytes fits in `n` bytes,
/// and the integer comes back from it.
pub proof fn lemma_pattern_round_trip(v: int, n: nat)
    requires
        -radix_pow(n) <= 2 * v < radix_pow(n),
    ensures
        pattern_of(v, n) < radix_pow(n),
        signed_of(pattern_of(v, n), n) == v,
{
}

/// Round trip, signed, little-endian: for every width of `n` bytes and every
/// `v` in the two's-complement range of that width, decoding the encoded
/// bytes gives `v`.
pub proof fn lemma_round_trip_signed_le(v: int, n: nat)
    requires
        -radix_pow(n) <= 2 * v < radix_pow(n),
    ensures
        signed_of(le_value(le_bytes(pattern_of(v, n), n)), n) == v,
{
    lemma_pattern_round_trip(v, n);
    lemma_round_trip_unsigned_le(pattern_of(v, n), n);
}

/// Round trip, signed, big-endian: for every width of `n` bytes and every `v`
/// in the two's-complement range of that width, decoding the encoded bytes
/// gives `v`.
pub proof fn lemma_round_trip_signed_be(v: int, n: nat)
    requires
        -radix_pow(n) <= 2 * v < radix_pow(n),
    ensures
        signed_of(be_value(be_bytes(pattern_of(v, n), n)), n) == v,
{
    lemma_pattern_round_trip(v, n);
    lemma_round_trip_unsigned_be(pattern_of(v, n), n);
}

/// Round trip for the 16-bit types: every `u16` and every `i16` comes back
/// from its 2 bytes, in either order.
pub proof fn lemma_round_trip_16()
    ensures
        forall|v: u16| le_value(#[trigger] le_bytes(v as nat, 2)) == v,
        forall|v: u16| be_value(#[trigger] be_bytes(v as nat, 2)) == v,
        forall|v: i16|
            signed_of(le_value(le_bytes(#[trigger] pattern_of(v as int, 2), 2)), 2) == v,
        forall|v: i16|
            signed_of(be_value(be_bytes(#[trigger] pattern_of(v as int, 2), 2)), 2) == v,
{
    lemma_radix_pow_values();
    assert forall|v: u16| le_value(#[trigger] le_bytes(v as nat, 2)) == v by {
        lemma_round_trip_unsigned_le(v as nat, 2);
    }
    assert forall|v: u16| be_value(#[trigger] be_bytes(v as nat, 2)) == v by {
        lemma_round_trip_unsigned_be(v as nat, 2);
    }
    assert forall|v: i16|
        signed_of(le_value(le_bytes(#[trigger] pattern_of(v as int, 2), 2)), 2) == v by {
        lemma_round_trip_signed_le(v as int, 2);
    }
    assert forall|v: i16|
        signed_of(be_value(be_bytes(#[trigger] pattern_of(v as int, 2), 2)), 2) == v by {
        lemma_round_trip_signed_be(v as int, 2);
    }
}

/// Round trip for the 32-bit types: every `u32` and every `i32` comes back
/// from its 4 bytes, in either order.
pub proof fn lemma_round_trip_32()
    ensures
        forall|v: u32| le_value(#[trigger] le_bytes(v as nat, 4)) == v,
        forall|v: u32| be_value(#[trigger] be_bytes(v as nat, 4)) == v,
        forall|v: i32|
            signed_of(le_value(le_bytes(#[trigger] pattern_of(v as int, 4), 4)), 4) == v,
        forall|v: i32|
            signed_of(be_value(be_bytes(#[trigger] pattern_of(v as int, 4), 4)), 4) == v,
{
    lemma_radix_pow_values();
    assert forall|v: u32| le_value(#[trigger] le_bytes(v as nat, 4)) == v by {
        lemma_round_trip_unsigned_le(v as nat, 4);
    }
    assert forall|v: u32| be_value(#[trigger] be_bytes(v as nat, 4)) == v by {
        lemma_round_trip_unsigned_be(v as nat, 4);
    }
    assert forall|v: i32|
        signed_of(le_value(le_bytes(#[trigger] pattern_of(v as int, 4), 4)), 4) == v by {
        lemma_round_trip_signed_le(v as int, 4);
    }
    assert forall|v: i32|
        signed_of(be_value(be_bytes(#[trigger] pattern_of(v as int, 4), 4)), 4) == v by {
        lemma_round_trip_signed_be(v as int, 4);
    }
}

/// Round trip for the 64-bit types: every `u64` and every `i64` comes back
/// from its 8 bytes, in either order.
pub proof fn lemma_round_trip_64()
    ensures
        forall|v: u64| le_value(#[trigger] le_bytes(v as nat, 8)) == v,
        forall|v: u64| be_value(#[trigger] be_bytes(v as nat, 8)) == v,
        forall|v: i64|
            signed_of(le_value(le_bytes(#[trigger] pattern_of(v as int, 8), 8)), 8) == v,
        forall|v: i64|
            signed_of(be_value(be_bytes(#[trigger] pattern_of(v as int, 8), 8)), 8) == v,
{
    lemma_radix_pow_values();
    assert forall|v: u64| le_value(#[trigger] le_bytes(v as nat, 8)) == v by {
        lemma_round_trip_unsigned_le(v as nat, 8);
    }
    assert forall|v: u64| be_value(#[trigger] be_bytes(v as nat, 8)) == v by {
        lemma_round_trip_unsigned_be(v as nat, 8);
    }
    assert forall|v: i64|
        signed_of(le_value(le_bytes(#[trigger] pattern_of(v as int, 8), 8)), 8) == v by {
        lemma_round_trip_signed_le(v as int, 8);
    }
    assert forall|v: i64|
        signed_of(be_value(be_bytes(#[trigger] pattern_of(v as int, 8), 8)), 8) == v by {
        lemma_round_trip_signed_be(v as int, 8);
    }
}

/// Round trip for the 128-bit types: every `u128` and every `i128` comes back
/// from its 16 bytes, in either order.
pub proof fn lemma_round_trip_128()
    ensures
        forall|v: u128| le_value(#[trigger] le_bytes(v as nat, 16)) == v,
        forall|v: u128| be_value(#[trigger] be_bytes(v as nat, 16)) == v,
        forall|v: i128|
            signed_of(le_value(le_bytes(#[trigger] pattern_of(v as int, 16), 16)), 16) == v,
        forall|v: i128|
            signed_of(be_value(be_bytes(#[trigger] pattern_of(v as int, 16), 16)), 16) == v,
{
    lemma_radix_pow_values();
    assert forall|v: u128| le_value(#[trigger] le_bytes(v as nat, 16)) == v by {
        lemma_round_trip_unsigned_le(v as nat, 16);
    }
    assert forall|v: u128| be_value(#[trigger] be_bytes(v as nat, 16)) == v by {
        lemma_round_trip_unsigned_be(v as nat, 16);
    }
    assert forall|v: i128|
        signed_of(le_value(le_bytes(#[trigger] pattern_of(v as int, 16), 16)), 16) == v by {
        lemma_round_trip_signed_le(v as int, 16);
    }
    assert forall|v: i128|
        signed_of(be_value(be_bytes(#[trigger] pattern_of(v as int, 16), 16)), 16) == v by {
        lemma_round_trip_signed_be(v as int, 16);
    }
}

/// Little-endian puts the digit of weight `256^i` at offset `i`.
pub proof fn lemma_le_byte_at(v: nat, n: nat, i: nat)
    requires
        i < n,
    ensures
        le_bytes(v, n).len() == n,
        le_bytes(v, n)[i as int] == (v / radix_pow(i)) % 256,
    decreases i,
{
    lemma_le_bytes_len(v, n);
    lemma_le_bytes_len(v / 256, (n - 1) as nat);
    if i > 0 {
        let p = radix_pow((i - 1) as nat);
        lemma_le_byte_at(v / 256, (n - 1) as nat, (i - 1) as nat);
        lemma_radix_pow_monotone(0, (i - 1) as nat);
        lemma_div_denominator(v as int, 256, p as int);
        assert(radix_pow(i) == 256 * p);
        assert(le_bytes(v, n)[i as int] == le_bytes(v / 256, (n - 1) as nat)[i - 1]);
    } else {
        assert(radix_pow(0) == 1);
    }
}

/// Big-endian puts the digit of weight `256^i` at offset `n - 1 - i`, so the
/// most significant byte comes first.
pub proof fn lemma_be_byte_at(v: nat, n: nat, i: nat)
    requires
        i < n,
    ensures
        be_bytes(v, n).len() == n,
        be_bytes(v, n)[n - 1 - i] == (v / radix_pow(i)) % 256,
{
    lemma_le_byte_at(v, n, i);
}

/// A buffer of zeros holds the number zero.
pub proof fn lemma_zeros_value(k: nat)
    ensures
        le_value(zeros(k)) == 0,
        be_value(zeros(k)) == 0,
    decreases k,
{
    assert(zeros(k).reverse() =~= zeros(k));
    if k > 0 {
        lemma_zeros_value((k - 1) as nat);
        assert(zeros(k).drop_first() =~= zeros((k - 1) as nat));
    }
}

/// Short read, little-endian: when only the first bytes of a zeroed buffer
/// were filled, the buffer decodes to the number that those bytes hold.
pub proof fn lemma_le_zero_padded(filled: Seq<u8>, k: nat)
    ensures
        le_value(filled + zeros(k)) == le_value(filled),
    decreases filled.len(),
{
    if filled.len() == 0 {
        lemma_zeros_value(k);
        assert(filled + zeros(k) =~= zeros(k));
    } else {
        lemma_le_zero_padded(filled.drop_first(), k);
        assert((filled + zeros(k)).drop_first() =~= filled.drop_first() + zeros(k));
    }
}

/// `k` zero bytes below the digits `s` multiply what `s` holds by `256^k`.
pub proof fn lemma_le_zeros_below(s: Seq<u8>, k: nat)
    ensures
        le_value(zeros(k) + s) == radix_pow(k) * le_value(s),
    decreases k,
{
    if k == 0 {
        assert(zeros(0) + s =~= s);
        assert(radix_pow(0) == 1);
    } else {
        let lower = radix_pow((k - 1) as nat);
        let held = le_value(s);
        lemma_le_zeros_below(s, (k - 1) as nat);
        assert((zeros(k) + s).drop_first() =~= zeros((k - 1) as nat) + s);
        assert(le_value(zeros(k) + s) == 256 * (lower * held));
        assert(radix_pow(k) == 256 * lower);
        assert(256 * (lower * held) == (256 * lower) * held) by (nonlinear_arith);
    }
}

/// Short read, big-endian: when only the first bytes of a zeroed buffer were
/// filled, the `k` zeros that follow them are the low digits, so the buffer
/// decodes to the number that those bytes hold times `256^k`.
pub proof fn lemma_be_zero_padded(filled: Seq<u8>, k: nat)
    ensures
        be_value(filled + zeros(k)) == radix_pow(k) * be_value(filled),
{
    lemma_le_zeros_below(filled.reverse(), k);
    assert((filled + zeros(k)).reverse() =~= zeros(k) + filled.reverse());
}

} // verus!
