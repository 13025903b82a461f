use binary_io::{ByteSink, ByteSource, ReaderTypes, WriterTypes};
use std::io::{Error, ErrorKind};

/// Hands out `data` from the front, at most `chunk` bytes per raw read, or
/// fails when told to. It keeps what each buffer held when it came in.
struct Source {
    data: Vec<u8>,
    at: usize,
    chunk: usize,
    fail: bool,
    seen: Vec<Vec<u8>>,
}

impl Source {
    fn new(data: &[u8], chunk: usize) -> Source {
        Source { data: data.to_vec(), at: 0, chunk, fail: false, seen: Vec::new() }
    }

    fn failing() -> Source {
        Source { data: vec![1, 2, 3, 4], at: 0, chunk: 64, fail: true, seen: Vec::new() }
    }
}

impl ByteSource for Source {
    fn read(&mut self, buf: &mut [u8]) -> std::io::Result<usize> {
        self.seen.push(buf.to_vec());
        if self.fail {
            buf.fill(0xEE);
            return Err(Error::new(ErrorKind::TimedOut, "source timed out"));
        }
        let n = buf.len().min(self.chunk).min(self.data.len() - self.at);
        buf[..n].copy_from_slice(&self.data[self.at..self.at + n]);
        self.at += n;
        Ok(n)
    }
}

/// Keeps every byte it is given.
struct Pipe {
    bytes: Vec<u8>,
}

impl ByteSink for Pipe {
    fn write(&mut self, bytes: &[u8]) -> std::io::Result<usize> {
        self.bytes.extend_from_slice(bytes);
        Ok(bytes.len())
    }
}

#[test]
fn read_u8_gives_the_byte_itself() {
    let mut src = Source::new(&[0xAB, 0xCD], 64);
    assert_eq!(src.read_u8().unwrap(), 0xAB);
    assert_eq!(src.read_u8().unwrap(), 0xCD);
    assert_eq!(src.seen, vec![vec![0], vec![0]]);
}

#[test]
fn read_i16_le_largest() {
    let mut src = Source::new(&[0xFF, 0x7F], 64);
    assert_eq!(src.read_i16_le().unwrap(), 32767);
}

#[test]
fn read_u32_in_both_orders() {
    let mut src = Source::new(&[4, 3, 2, 1, 1, 2, 3, 4], 64);
    assert_eq!(src.read_u32_le().unwrap(), 0x01020304);
    assert_eq!(src.read_u32_be().unwrap(), 0x01020304);
}

#[test]
fn every_read_makes_one_raw_read_into_zeros_of_its_width() {
    let mut src = Source::new(&[0x11; 256], 64);
    src.read_u8().unwrap();
    src.read_i16_le().unwrap();
    src.read_i16_be().unwrap();
    src.read_i32_le().unwrap();
    src.read_i32_be().unwrap();
    src.read_i64_le().unwrap();
    src.read_i64_be().unwrap();
    src.read_i128_le().unwrap();
    src.read_i128_be().unwrap();
    src.read_u16_le().unwrap();
    src.read_u16_be().unwrap();
    src.read_u32_le().unwrap();
    src.read_u32_be().unwrap();
    src.read_u64_le().unwrap();
    src.read_u64_be().unwrap();
    src.read_u128_le().unwrap();
    src.read_u128_be().unwrap();
    let widths: Vec<usize> = src.seen.iter().map(|b| b.len()).collect();
    assert_eq!(widths, vec![1, 2, 2, 4, 4, 8, 8, 16, 16, 2, 2, 4, 4, 8, 8, 16, 16]);
    assert!(src.seen.iter().all(|b| b.iter().all(|x| *x == 0)));
}

#[test]
fn short_read_leaves_zeros_little_endian() {
    let mut src = Source::new(&[0x34, 0x12, 0x99, 0x99], 2);
    assert_eq!(src.read_u32_le().unwrap(), 0x0000_1234);
    assert_eq!(src.seen.len(), 1);
    assert_eq!(src.at, 2);
}

#[test]
fn short_read_leaves_zeros_big_endian() {
    let mut src = Source::new(&[0x12, 0x34, 0x99, 0x99], 2);
    assert_eq!(src.read_u32_be().unwrap(), 0x1234_0000);
    assert_eq!(src.seen.len(), 1);
}

#[test]
fn short_read_of_a_signed_value() {
    let mut src = Source::new(&[0xFF], 64);
    assert_eq!(src.read_i16_le().unwrap(), 0x00FF);
    let mut src = Source::new(&[0xFF], 64);
    assert_eq!(src.read_i16_be().unwrap(), -256);
}

#[test]
fn read_at_end_of_stream_gives_zero() {
    let mut src = Source::new(&[], 64);
    assert_eq!(src.read_u8().unwrap(), 0);
    assert_eq!(src.read_u64_le().unwrap(), 0);
    assert_eq!(src.read_i128_be().unwrap(), 0);
    assert_eq!(src.seen.len(), 3);
}

#[test]
fn a_failed_raw_read_is_handed_on() {
    let mut src = Source::failing();
    let err = src.read_u32_le().unwrap_err();
    assert_eq!(err.kind(), ErrorKind::TimedOut);
    assert_eq!(err.to_string(), "source timed out");
    assert_eq!(src.seen.len(), 1);
    assert!(src.read_u8().is_err());
    assert!(src.read_i16_be().is_err());
    assert!(src.read_u128_le().is_err());
    assert_eq!(src.seen.len(), 4);
}

#[test]
fn what_is_written_reads_back() {
    let mut pipe = Pipe { bytes: Vec::new() };
    pipe.write_u8(0xAB).unwrap();
    pipe.write_i16_le(-12345).unwrap();
    pipe.write_i16_be(12345).unwrap();
    pipe.write_i32_le(i32::MIN).unwrap();
    pipe.write_i32_be(i32::MAX).unwrap();
    pipe.write_i64_le(-1).unwrap();
    pipe.write_i64_be(i64::MIN).unwrap();
    pipe.write_u16_le(0xBEEF).unwrap();
    pipe.write_u16_be(0xBEEF).unwrap();
    pipe.write_u32_le(0xDEADBEEF).unwrap();
    pipe.write_u32_be(0xDEADBEEF).unwrap();
    pipe.write_u64_le(u64::MAX - 1).unwrap();
    pipe.write_u64_be(1 << 63).unwrap();
    let mut src = Source::new(&pipe.bytes, 64);
    assert_eq!(src.read_u8().unwrap(), 0xAB);
    assert_eq!(src.read_i16_le().unwrap(), -12345);
    assert_eq!(src.read_i16_be().unwrap(), 12345);
    assert_eq!(src.read_i32_le().unwrap(), i32::MIN);
    assert_eq!(src.read_i32_be().unwrap(), i32::MAX);
    assert_eq!(src.read_i64_le().unwrap(), -1);
    assert_eq!(src.read_i64_be().unwrap(), i64::MIN);
    assert_eq!(src.read_u16_le().unwrap(), 0xBEEF);
    assert_eq!(src.read_u16_be().unwrap(), 0xBEEF);
    assert_eq!(src.read_u32_le().unwrap(), 0xDEADBEEF);
    assert_eq!(src.read_u32_be().unwrap(), 0xDEADBEEF);
    assert_eq!(src.read_u64_le().unwrap(), u64::MAX - 1);
    assert_eq!(src.read_u64_be().unwrap(), 1 << 63);
    assert_eq!(src.at, pipe.bytes.len());
}

#[test]
fn extremes_of_128_bits_read_back() {
    let mut pipe = Pipe { bytes: Vec::new() };
    pipe.write_u128_le(u128::MAX).unwrap();
    pipe.write_u128_be(u128::MAX).unwrap();
    pipe.write_u128_le(u128::MIN).unwrap();
    pipe.write_u128_be(u128::MIN).unwrap();
    pipe.write_i128_le(i128::MAX).unwrap();
    pipe.write_i128_be(i128::MAX).unwrap();
    pipe.write_i128_le(i128::MIN).unwrap();
    pipe.write_i128_be(i128::MIN).unwrap();
    assert_eq!(pipe.bytes.len(), 128);
    let mut src = Source::new(&pipe.bytes, 64);
    assert_eq!(src.read_u128_le().unwrap(), u128::MAX);
    assert_eq!(src.read_u128_be().unwrap(), u128::MAX);
    assert_eq!(src.read_u128_le().unwrap(), u128::MIN);
    assert_eq!(src.read_u128_be().unwrap(), u128::MIN);
    assert_eq!(src.read_i128_le().unwrap(), i128::MAX);
    assert_eq!(src.read_i128_be().unwrap(), i128::MAX);
    assert_eq!(src.read_i128_le().unwrap(), i128::MIN);
    assert_eq!(src.read_i128_be().unwrap(), i128::MIN);
}
