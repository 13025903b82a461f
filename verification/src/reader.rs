//! Reading integers from a byte source.

use vstd::prelude::*;
use crate::codec::{
    decode_i128_be, decode_i128_le, decode_i16_be, decode_i16_le, decode_i32_be, decode_i32_le,
    decode_i64_be, decode_i64_le, decode_u128_be, decode_u128_le, decode_u16_be, decode_u16_le,
    decode_u32_be, decode_u32_le, decode_u64_be, decode_u64_le,
};
use crate::layout::{be_value, le_value, signed_of, zeros};
use crate::stream::ByteSource;

verus! {

/// One raw read into a zeroed buffer of `n` bytes: it took the source from
/// `before` to `after`, left `filled` in the buffer and reported `raw`.
pub open spec fn one_read<R: ByteSource + ?Sized>(
    before: &R,
    n: nat,
    after: &R,
    filled: Seq<u8>,
    raw: Result<usize, std::io::Error>,
) -> bool {
    &&& filled.len() == n
    &&& before.read_step(zeros(n), after, filled, raw)
}

/// How a read operation's outcome follows its raw read's: it succeeds when
/// the raw read succeeded, whatever count that reported, and fails with the
/// raw read's own failure otherwise.
pub open spec fn follows<T>(
    raw: Result<usize, std::io::Error>,
    outcome: Result<T, std::io::Error>,
) -> bool {
    match raw {
        Ok(_) => outcome is Ok,
        Err(e) => outcome == Err::<T, std::io::Error>(e),
    }
}

/// Integer reads for every byte source.
///
/// Each operation makes exactly one raw read, into a zeroed buffer of the
/// integer's size, and decodes what the buffer then holds in the order that
/// its name gives. The count that the read reported is not looked at: bytes
/// that a short read left untouched are decoded as the zeros they still are.
/// A failure of the raw read is handed on as it is.
pub trait ReaderTypes: ByteSource {
    /// Reads one byte.
    fn read_u8(&mut self) -> (outcome: std::io::Result<u8>)
        ensures
            exists|filled: Seq<u8>, raw: Result<usize, std::io::Error>|
                {
                    &&& #[trigger] one_read(old(self), 1, final(self), filled, raw)
                    &&& follows(raw, outcome)
                    &&& outcome matches Ok(v) ==> v == filled[0]
                },
    ;

    /// Reads an `i16` in little-endian order.
    fn read_i16_le(&mut self) -> (outcome: std::io::Result<i16>)
        ensures
            exists|filled: Seq<u8>, raw: Result<usize, std::io::Error>|
                {
                    &&& #[trigger] one_read(old(self), 2, final(self), filled, raw)
                    &&& follows(raw, outcome)
                    &&& outcome matches Ok(v) ==> v == signed_of(le_value(filled), 2)
                },
    ;

    /// Reads an `i16` in big-endian order.
    fn read_i16_be(&mut self) -> (outcome: std::io::Result<i16>)
        ensures
            exists|filled: Seq<u8>, raw: Result<usize, std::io::Error>|
                {
                    &&& #[trigger] one_read(old(self), 2, final(self), filled, raw)
                    &&& follows(raw, outcome)
                    &&& outcome matches Ok(v) ==> v == signed_of(be_value(filled), 2)
                },
    ;

    /// Reads an `i32` in little-endian order.
    fn read_i32_le(&mut self) -> (outcome: std::io::Result<i32>)
        ensures
            exists|filled: Seq<u8>, raw: Result<usize, std::io::Error>|
                {
                    &&& #[trigger] one_read(old(self), 4, final(self), filled, raw)
                    &&& follows(raw, outcome)
                    &&& outcome matches Ok(v) ==> v == signed_of(le_value(filled), 4)
                },
    ;

    /// Reads an `i32` in big-endian order.
    fn read_i32_be(&mut self) -> (outcome: std::io::Result<i32>)
        ensures
            exists|filled: Seq<u8>, raw: Result<usize, std::io::Error>|
                {
                    &&& #[trigger] one_read(old(self), 4, final(self), filled, raw)
                    &&& follows(raw, outcome)
                    &&& outcome matches Ok(v) ==> v == signed_of(be_value(filled), 4)
                },
    ;

    /// Reads an `i64` in little-endian order.
    fn read_i64_le(&mut self) -> (outcome: std::io::Result<i64>)
        ensures
            exists|filled: Seq<u8>, raw: Result<usize, std::io::Error>|
                {
                    &&& #[trigger] one_read(old(self), 8, final(self), filled, raw)
                    &&& follows(raw, outcome)
                    &&& outcome matches Ok(v) ==> v == signed_of(le_value(filled), 8)
                },
    ;

    /// Reads an `i64` in big-endian order.
    fn read_i64_be(&mut self) -> (outcome: std::io::Result<i64>)
        ensures
            exists|filled: Seq<u8>, raw: Result<usize, std::io::Error>|
                {
                    &&& #[trigger] one_read(old(self), 8, final(self), filled, raw)
                    &&& follows(raw, outcome)
                    &&& outcome matches Ok(v) ==> v == signed_of(be_value(filled), 8)
                },
    ;

    /// Reads an `i128` in little-endian order.
    fn read_i128_le(&mut self) -> (outcome: std::io::Result<i128>)
        ensures
            exists|filled: Seq<u8>, raw: Result<usize, std::io::Error>|
                {
                    &&& #[trigger] one_read(old(self), 16, final(self), filled, raw)
                    &&& follows(raw, outcome)
                    &&& outcome matches Ok(v) ==> v == signed_of(le_value(filled), 16)
                },
    ;

    /// Reads an `i128` in big-endian order.
    fn read_i128_be(&mut self) -> (outcome: std::io::Result<i128>)
        ensures
            exists|filled: Seq<u8>, raw: Result<usize, std::io::Error>|
                {
                    &&& #[trigger] one_read(old(self), 16, final(self), filled, raw)
                    &&& follows(raw, outcome)
                    &&& outcome matches Ok(v) ==> v == signed_of(be_value(filled), 16)
                },
    ;

    /// Reads a `u16` in little-endian order.
    fn read_u16_le(&mut self) -> (outcome: std::io::Result<u16>)
        ensures
            exists|filled: Seq<u8>, raw: Result<usize, std::io::Error>|
                {
                    &&& #[trigger] one_read(old(self), 2, final(self), filled, raw)
                    &&& follows(raw, outcome)
                    &&& outcome matches Ok(v) ==> v == le_value(filled)
                },
    ;

    /// Reads a `u16` in big-endian order.
    fn read_u16_be(&mut self) -> (outcome: std::io::Result<u16>)
        ensures
            exists|filled: Seq<u8>, raw: Result<usize, std::io::Error>|
                {
                    &&& #[trigger] one_read(old(self), 2, final(self), filled, raw)
                    &&& follows(raw, outcome)
                    &&& outcome matches Ok(v) ==> v == be_value(filled)
                },
    ;

    /// Reads a `u32` in little-endian order.
    fn read_u32_le(&mut self) -> (outcome: std::io::Result<u32>)
        ensures
            exists|filled: Seq<u8>, raw: Result<usize, std::io::Error>|
                {
                    &&& #[trigger] one_read(old(self), 4, final(self), filled, raw)
                    &&& follows(raw, outcome)
                    &&& outcome matches Ok(v) ==> v == le_value(filled)
                },
    ;

    /// Reads a `u32` in big-endian order.
    fn read_u32_be(&mut self) -> (outcome: std::io::Result<u32>)
        ensures
            exists|filled: Seq<u8>, raw: Result<usize, std::io::Error>|
                {
                    &&& #[trigger] one_read(old(self), 4, final(self), filled, raw)
                    &&& follows(raw, outcome)
                    &&& outcome matches Ok(v) ==> v == be_value(filled)
                },
    ;

    /// Reads a `u64` in little-endian order.
    fn read_u64_le(&mut self) -> (outcome: std::io::Result<u64>)
        ensures
            exists|filled: Seq<u8>, raw: Result<usize, std::io::Error>|
                {
                    &&& #[trigger] one_read(old(self), 8, final(self), filled, raw)
                    &&& follows(raw, outcome)
                    &&& outcome matches Ok(v) ==> v == le_value(filled)
                },
    ;

    /// Reads a `u64` in big-endian order.
    fn read_u64_be(&mut self) -> (outcome: std::io::Result<u64>)
        ensures
            exists|filled: Seq<u8>, raw: Result<usize, std::io::Error>|
                {
                    &&& #[trigger] one_read(old(self), 8, final(self), filled, raw)
                    &&& follows(raw, outcome)
                    &&& outcome matches Ok(v) ==> v == be_value(filled)
                },
    ;

    /// Reads a `u128` in little-endian order.
    fn read_u128_le(&mut self) -> (outcome: std::io::Result<u128>)
        ensures
            exists|filled: Seq<u8>, raw: Result<usize, std::io::Error>|
                {
                    &&& #[trigger] one_read(old(self), 16, final(self), filled, raw)
                    &&& follows(raw, outcome)
                    &&& outcome matches Ok(v) ==> v == le_value(filled)
                },
    ;

    /// Reads a `u128` in big-endian order.
    fn read_u128_be(&mut self) -> (outcome: std::io::Result<u128>)
        ensures
            exists|filled: Seq<u8>, raw: Result<usize, std::io::Error>|
                {
                    &&& #[trigger] one_read(old(self), 16, final(self), filled, raw)
                    &&& follows(raw, outcome)
                    &&& outcome matches Ok(v) ==> v == be_value(filled)
                },
    ;
}

impl<R: ByteSource> ReaderTypes for R {
    fn read_u8(&mut self) -> (outcome: std::io::Result<u8>) {
        let mut buf = [0u8; 1];
        proof {
            assert(buf@ =~= zeros(1));
        }
        let raw = self.read(&mut buf);
        proof {
            assert(one_read(old(self), 1, self, buf@, raw));
        }
        match raw {
            Ok(_) => Ok(buf[0]),
            Err(e) => Err(e),
        }
    }

    fn read_i16_le(&mut self) -> (outcome: std::io::Result<i16>) {
        let mut buf = [0u8; 2];
        proof {
            assert(buf@ =~= zeros(2));
        }
        let raw = self.read(&mut buf);
        proof {
            assert(one_read(old(self), 2, self, buf@, raw));
        }
        match raw {
            Ok(_) => Ok(decode_i16_le(&buf)),
            Err(e) => Err(e),
        }
    }

    fn read_i16_be(&mut self) -> (outcome: std::io::Result<i16>) {
        let mut buf = [0u8; 2];
        proof {
            assert(buf@ =~= zeros(2));
        }
        let raw = self.read(&mut buf);
        proof {
            assert(one_read(old(self), 2, self, buf@, raw));
        }
        match raw {
            Ok(_) => Ok(decode_i16_be(&buf)),
            Err(e) => Err(e),
        }
    }

    fn read_i32_le(&mut self) -> (outcome: std::io::Result<i32>) {
        let mut buf = [0u8; 4];
        proof {
            assert(buf@ =~= zeros(4));
        }
        let raw = self.read(&mut buf);
        proof {
            assert(one_read(old(self), 4, self, buf@, raw));
        }
        match raw {
            Ok(_) => Ok(decode_i32_le(&buf)),
            Err(e) => Err(e),
        }
    }

    fn read_i32_be(&mut self) -> (outcome: std::io::Result<i32>) {
        let mut buf = [0u8; 4];
        proof {
            assert(buf@ =~= zeros(4));
        }
        let raw = self.read(&mut buf);
        proof {
            assert(one_read(old(self), 4, self, buf@, raw));
        }
        match raw {
            Ok(_) => Ok(decode_i32_be(&buf)),
            Err(e) => Err(e),
        }
    }

    fn read_i64_le(&mut self) -> (outcome: std::io::Result<i64>) {
        let mut buf = [0u8; 8];
        proof {
            assert(buf@ =~= zeros(8));
        }
        let raw = self.read(&mut buf);
        proof {
            assert(one_read(old(self), 8, self, buf@, raw));
        }
        match raw {
            Ok(_) => Ok(decode_i64_le(&buf)),
            Err(e) => Err(e),
        }
    }

    fn read_i64_be(&mut self) -> (outcome: std::io::Result<i64>) {
        let mut buf = [0u8; 8];
        proof {
            assert(buf@ =~= zeros(8));
        }
        let raw = self.read(&mut buf);
        proof {
            assert(one_read(old(self), 8, self, buf@, raw));
        }
        match raw {
            Ok(_) => Ok(decode_i64_be(&buf)),
            Err(e) => Err(e),
        }
    }

    fn read_i128_le(&mut self) -> (outcome: std::io::Result<i128>) {
        let mut buf = [0u8; 16];
        proof {
            assert(buf@ =~= zeros(16));
        }
        let raw = self.read(&mut buf);
        proof {
            assert(one_read(old(self), 16, self, buf@, raw));
        }
        match raw {
            Ok(_) => Ok(decode_i128_le(&buf)),
            Err(e) => Err(e),
        }
    }

    fn read_i128_be(&mut self) -> (outcome: std::io::Result<i128>) {
        let mut buf = [0u8; 16];
        proof {
            assert(buf@ =~= zeros(16));
        }
        let raw = self.read(&mut buf);
        proof {
            assert(one_read(old(self), 16, self, buf@, raw));
        }
        match raw {
            Ok(_) => Ok(decode_i128_be(&buf)),
            Err(e) => Err(e),
        }
    }

    fn read_u16_le(&mut self) -> (outcome: std::io::Result<u16>) {
        let mut buf = [0u8; 2];
        proof {
            assert(buf@ =~= zeros(2));
        }
        let raw = self.read(&mut buf);
        proof {
            assert(one_read(old(self), 2, self, buf@, raw));
        }
        match raw {
            Ok(_) => Ok(decode_u16_le(&buf)),
            Err(e) => Err(e),
        }
    }

    fn read_u16_be(&mut self) -> (outcome: std::io::Result<u16>) {
        let mut buf = [0u8; 2];
        proof {
            assert(buf@ =~= zeros(2));
        }
        let raw = self.read(&mut buf);
        proof {
            assert(one_read(old(self), 2, self, buf@, raw));
        }
        match raw {
            Ok(_) => Ok(decode_u16_be(&buf)),
            Err(e) => Err(e),
        }
    }

    fn read_u32_le(&mut self) -> (outcome: std::io::Result<u32>) {
        let mut buf = [0u8; 4];
        proof {
            assert(buf@ =~= zeros(4));
        }
        let raw = self.read(&mut buf);
        proof {
            assert(one_read(old(self), 4, self, buf@, raw));
        }
        match raw {
            Ok(_) => Ok(decode_u32_le(&buf)),
            Err(e) => Err(e),
        }
    }

    fn read_u32_be(&mut self) -> (outcome: std::io::Result<u32>) {
        let mut buf = [0u8; 4];
        proof {
            assert(buf@ =~= zeros(4));
        }
        let raw = self.read(&mut buf);
        proof {
            assert(one_read(old(self), 4, self, buf@, raw));
        }
        match raw {
            Ok(_) => Ok(decode_u32_be(&buf)),
            Err(e) => Err(e),
        }
    }

    fn read_u64_le(&mut self) -> (outcome: std::io::Result<u64>) {
        let mut buf = [0u8; 8];
        proof {
            assert(buf@ =~= zeros(8));
        }
        let raw = self.read(&mut buf);
        proof {
            assert(one_read(old(self), 8, self, buf@, raw));
        }
        match raw {
            Ok(_) => Ok(decode_u64_le(&buf)),
            Err(e) => Err(e),
        }
    }

    fn read_u64_be(&mut self) -> (outcome: std::io::Result<u64>) {
        let mut buf = [0u8; 8];
        proof {
            assert(buf@ =~= zeros(8));
        }
        let raw = self.read(&mut buf);
        proof {
            assert(one_read(old(self), 8, self, buf@, raw));
        }
        match raw {
            Ok(_) => Ok(decode_u64_be(&buf)),
            Err(e) => Err(e),
        }
    }

    fn read_u128_le(&mut self) -> (outcome: std::io::Result<u128>) {
        let mut buf = [0u8; 16];
        proof {
            assert(buf@ =~= zeros(16));
        }
        let raw = self.read(&mut buf);
        proof {
            assert(one_read(old(self), 16, self, buf@, raw));
        }
        match raw {
            Ok(_) => Ok(decode_u128_le(&buf)),
            Err(e) => Err(e),
        }
    }

    fn read_u128_be(&mut self) -> (outcome: std::io::Result<u128>) {
        let mut buf = [0u8; 16];
        proof {
            assert(buf@ =~= zeros(16));
        }
        let raw = self.read(&mut buf);
        proof {
            assert(one_read(old(self), 16, self, buf@, raw));
        }
        match raw {
            Ok(_) => Ok(decode_u128_be(&buf)),
            Err(e) => Err(e),
        }
    }
}

} // verus!
