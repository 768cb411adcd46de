//! The two capabilities of a value type: it can be written to a byte sink
//! and read back from a byte source.

use crate::stream::{taken, zero_padded, ByteSink, ByteSource};
use vstd::prelude::*;

verus! {

/// A value that can be encoded.
pub trait IntoBadcat {
    /// The bytes that stand for the value: its tag, then its payload.
    spec fn wire(&self) -> Seq<u8>;

    /// The size that a successful encode reports.
    spec fn units(&self) -> usize;

    /// Appends the value's wire form to `writer`. This succeeds exactly when
    /// the sink has room for the whole of it, and then reports `units`; a
    /// sink that has not is left as it was.
    fn into_badcat<W: ByteSink>(&self, writer: &mut W) -> (r: Result<usize, ()>)
        ensures
            r is Ok <==> self.wire().len() <= old(writer).room(),
            r is Ok ==> {
                &&& r == Ok::<usize, ()>(self.units())
                &&& final(writer).written() == old(writer).written() + self.wire()
                &&& final(writer).room() == old(writer).room() - self.wire().len()
            },
            r is Err ==> {
                &&& final(writer).written() == old(writer).written()
                &&& final(writer).room() == old(writer).room()
            },
    ;
}

/// A value that can be decoded.
pub trait FromBadcat: Sized {
    /// The length of one encoded value.
    spec fn frame_len() -> nat;

    /// The value that a frame of `frame_len` bytes stands for, if any.
    spec fn parse(frame: Seq<u8>) -> Result<Self, ()>;

    /// Reads one value off the front of `reader`. Up to `frame_len` bytes
    /// leave the source; where it holds fewer, the frame is filled up with
    /// zeros before it is parsed. A source that cannot be read gives an
    /// error and keeps its bytes.
    fn from_badcat<R: ByteSource>(reader: &mut R) -> (r: Result<Self, ()>)
        ensures
            old(reader).readable() ==> {
                let pending = old(reader).pending();
                &&& r == Self::parse(zero_padded(pending, Self::frame_len()))
                &&& final(reader).pending() == pending.skip(
                    taken(pending.len(), Self::frame_len()) as int,
                )
            },
            !old(reader).readable() ==> r is Err && final(reader).pending() == old(
                reader,
            ).pending(),
    ;
}

} // verus!
