//! Fixed-width integers on byte streams.
//!
//! A byte sink or source offers one raw primitive that moves some bytes. On
//! top of it this crate gives one operation per integer width, signedness and
//! byte order: a write sends the integer's bytes in one raw write and reports
//! what that write reported; a read fills a zeroed buffer in one raw read and
//! decodes whatever the buffer then holds.

pub mod codec;
pub mod layout;
pub mod reader;
pub mod stream;
pub mod writer;

pub use reader::ReaderTypes;
pub use stream::{ByteSink, ByteSource};
pub use writer::WriterTypes;
