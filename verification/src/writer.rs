//! Writing integers to a byte sink.

use vstd::prelude::*;
use crate::codec::{
    encode_i128_be, encode_i128_le, encode_i16_be, encode_i16_le, encode_i32_be, encode_i32_le,
    encode_i64_be, encode_i64_le, encode_u128_be, encode_u128_le, encode_u16_be, encode_u16_le,
    encode_u32_be, encode_u32_le, encode_u64_be, encode_u64_le,
};
use crate::layout::{be_bytes, le_bytes, pattern_of};
use crate::stream::ByteSink;

verus! {

/// Integer writes for every byte sink.
///
/// Each operation makes exactly one raw write, with the integer's bytes in
/// the order that its name gives, and reports what that write reported: the
/// count, which may be less than the integer's size, or the failure. Nothing
/// is tried again.
pub trait WriterTypes: ByteSink {
    /// Writes the byte `v`.
    fn write_u8(&mut self, v: u8) -> (outcome: std::io::Result<usize>)
        ensures
            old(self).write_step(seq![v], final(self), outcome),
    ;

    /// Writes `v` in little-endian order.
    fn write_i16_le(&mut self, v: i16) -> (outcome: std::io::Result<usize>)
        ensures
            old(self).write_step(le_bytes(pattern_of(v as int, 2), 2), final(self), outcome),
    ;

    /// Writes `v` in big-endian order.
    fn write_i16_be(&mut self, v: i16) -> (outcome: std::io::Result<usize>)
        ensures
            old(self).write_step(be_bytes(pattern_of(v as int, 2), 2), final(self), outcome),
    ;

    /// Writes `v` in little-endian order.
    fn write_i32_le(&mut self, v: i32) -> (outcome: std::io::Result<usize>)
        ensures
            old(self).write_step(le_bytes(pattern_of(v as int, 4), 4), final(self), outcome),
    ;

    /// Writes `v` in big-endian order.
    fn write_i32_be(&mut self, v: i32) -> (outcome: std::io::Result<usize>)
        ensures
            old(self).write_step(be_bytes(pattern_of(v as int, 4), 4), final(self), outcome),
    ;

    /// Writes `v` in little-endian order.
    fn write_i64_le(&mut self, v: i64) -> (outcome: std::io::Result<usize>)
        ensures
            old(self).write_step(le_bytes(pattern_of(v as int, 8), 8), final(self), outcome),
    ;

    /// Writes `v` in big-endian order.
    fn write_i64_be(&mut self, v: i64) -> (outcome: std::io::Result<usize>)
        ensures
            old(self).write_step(be_bytes(pattern_of(v as int, 8), 8), final(self), outcome),
    ;

    /// Writes `v` in little-endian order.
    fn write_i128_le(&mut self, v: i128) -> (outcome: std::io::Result<usize>)
        ensures
            old(self).write_step(le_bytes(pattern_of(v as int, 16), 16), final(self), outcome),
    ;

    /// Writes `v` in big-endian order.
    fn write_i128_be(&mut self, v: i128) -> (outcome: std::io::Result<usize>)
        ensures
            old(self).write_step(be_bytes(pattern_of(v as int, 16), 16), final(self), outcome),
    ;

    /// Writes `v` in little-endian order.
    fn write_u16_le(&mut self, v: u16) -> (outcome: std::io::Result<usize>)
        ensures
            old(self).write_step(le_bytes(v as nat, 2), final(self), outcome),
    ;

    /// Writes `v` in big-endian order.
    fn write_u16_be(&mut self, v: u16) -> (outcome: std::io::Result<usize>)
        ensures
            old(self).write_step(be_bytes(v as nat, 2), final(self), outcome),
    ;

    /// Writes `v` in little-endian order.
    fn write_u32_le(&mut self, v: u32) -> (outcome: std::io::Result<usize>)
        ensures
            old(self).write_step(le_bytes(v as nat, 4), final(self), outcome),
    ;

    /// Writes `v` in big-endian order.
    fn write_u32_be(&mut self, v: u32) -> (outcome: std::io::Result<usize>)
        ensures
            old(self).write_step(be_bytes(v as nat, 4), final(self), outcome),
    ;

    /// Writes `v` in little-endian order.
    fn write_u64_le(&mut self, v: u64) -> (outcome: std::io::Result<usize>)
        ensures
            old(self).write_step(le_bytes(v as nat, 8), final(self), outcome),
    ;

    /// Writes `v` in big-endian order.
    fn write_u64_be(&mut self, v: u64) -> (outcome: std::io::Result<usize>)
        ensures
            old(self).write_step(be_bytes(v as nat, 8), final(self), outcome),
    ;

    /// Writes `v` in little-endian order.
    fn write_u128_le(&mut self, v: u128) -> (outcome: std::io::Result<usize>)
        ensures
            old(self).write_step(le_bytes(v as nat, 16), final(self), outcome),
    ;

    /// Writes `v` in big-endian order.
    fn write_u128_be(&mut self, v: u128) -> (outcome: std::io::Result<usize>)
        ensures
            old(self).write_step(be_bytes(v as nat, 16), final(self), outcome),
    ;
}

impl<W: ByteSink> WriterTypes for W {
    fn write_u8(&mut self, v: u8) -> (outcome: std::io::Result<usize>) {
        let bytes = [v];
        proof {
            assert(bytes@ =~= seq![v]);
        }
        self.write(bytes.as_slice())
    }

    fn write_i16_le(&mut self, v: i16) -> (outcome: std::io::Result<usize>) {
        let bytes = encode_i16_le(v);
        self.write(bytes.as_slice())
    }

    fn write_i16_be(&mut self, v: i16) -> (outcome: std::io::Result<usize>) {
        let bytes = encode_i16_be(v);
        self.write(bytes.as_slice())
    }

    fn write_i32_le(&mut self, v: i32) -> (outcome: std::io::Result<usize>) {
        let bytes = encode_i32_le(v);
        self.write(bytes.as_slice())
    }

    fn write_i32_be(&mut self, v: i32) -> (outcome: std::io::Result<usize>) {
        let bytes = encode_i32_be(v);
        self.write(bytes.as_slice())
    }

    fn write_i64_le(&mut self, v: i64) -> (outcome: std::io::Result<usize>) {
        let bytes = encode_i64_le(v);
        self.write(bytes.as_slice())
    }

    fn write_i64_be(&mut self, v: i64) -> (outcome: std::io::Result<usize>) {
        let bytes = encode_i64_be(v);
        self.write(bytes.as_slice())
    }

    fn write_i128_le(&mut self, v: i128) -> (outcome: std::io::Result<usize>) {
        let bytes = encode_i128_le(v);
        self.write(bytes.as_slice())
    }

    fn write_i128_be(&mut self, v: i128) -> (outcome: std::io::Result<usize>) {
        let bytes = encode_i128_be(v);
        self.write(bytes.as_slice())
    }

    fn write_u16_le(&mut self, v: u16) -> (outcome: std::io::Result<usize>) {
        let bytes = encode_u16_le(v);
        self.write(bytes.as_slice())
    }

    fn write_u16_be(&mut self, v: u16) -> (outcome: std::io::Result<usize>) {
        let bytes = encode_u16_be(v);
        self.write(bytes.as_slice())
    }

    fn write_u32_le(&mut self, v: u32) -> (outcome: std::io::Result<usize>) {
        let bytes = encode_u32_le(v);
        self.write(bytes.as_slice())
    }

    fn write_u32_be(&mut self, v: u32) -> (outcome: std::io::Result<usize>) {
        let bytes = encode_u32_be(v);
        self.write(bytes.as_slice())
    }

    fn write_u64_le(&mut self, v: u64) -> (outcome: std::io::Result<usize>) {
        let bytes = encode_u64_le(v);
        self.write(bytes.as_slice())
    }

    fn write_u64_be(&mut self, v: u64) -> (outcome: std::io::Result<usize>) {
        let bytes = encode_u64_be(v);
        self.write(bytes.as_slice())
    }

    fn write_u128_le(&mut self, v: u128) -> (outcome: std::io::Result<usize>) {
        let bytes = encode_u128_le(v);
        self.write(bytes.as_slice())
    }

    fn write_u128_be(&mut self, v: u128) -> (outcome: std::io::Result<usize>) {
        let bytes = encode_u128_be(v);
        self.write(bytes.as_slice())
    }
}

} // verus!
