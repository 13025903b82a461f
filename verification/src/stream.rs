//! The two capabilities that the integer operations build on.
//!
//! A sink or a source is anything with one raw primitive that moves some
//! bytes and may move fewer than asked. What a primitive does is described by
//! a relation between the state before, the bytes, the state after and the
//! reported outcome. An implementation that states nothing about itself
//! leaves the relation at its default, which allows every outcome.

use vstd::prelude::*;

verus! {

/// `std::io::Error`, the failure that a raw read or write reports. Nothing is
/// known of its contents here: it is only handed on.
#[verifier::external_type_specification]
#[verifier::external_body]
pub struct ExIoError(std::io::Error);

/// A byte sink: something with one raw write that may accept only part of
/// what it is given.
pub trait ByteSink {
    /// What one raw write can do: taken from the state `self` and given
    /// `bytes`, it may leave the sink as `after` and report `outcome`.
    open spec fn write_step(
        &self,
        bytes: Seq<u8>,
        after: &Self,
        outcome: Result<usize, std::io::Error>,
    ) -> bool {
        true
    }

    /// Writes some of `bytes` and reports how many were accepted, or fails.
    fn write(&mut self, bytes: &[u8]) -> (outcome: std::io::Result<usize>)
        ensures
            old(self).write_step(bytes@, final(self), outcome),
    ;
}

/// A byte source: something with one raw read that may fill only part of the
/// buffer it is given.
pub trait ByteSource {
    /// What one raw read can do: taken from the state `self` and given a
    /// buffer that holds `buf`, it may leave the source as `after` and the
    /// buffer as `filled`, and report `outcome`.
    open spec fn read_step(
        &self,
        buf: Seq<u8>,
        after: &Self,
        filled: Seq<u8>,
        outcome: Result<usize, std::io::Error>,
    ) -> bool {
        true
    }

    /// Reads some bytes into the front of `buf` and reports how many, or
    /// fails. The buffer keeps its length.
    fn read(&mut self, buf: &mut [u8]) -> (outcome: std::io::Result<usize>)
        ensures
            final(buf)@.len() == old(buf)@.len(),
            old(self).read_step(old(buf)@, final(self), final(buf)@, outcome),
    ;
}

} // verus!
