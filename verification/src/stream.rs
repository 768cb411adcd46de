//! Byte sinks and byte sources.
//!
//! A sink takes bytes at its end; its model is the sequence of all bytes it
//! has taken. A source hands bytes out from its front; its model is the
//! sequence of bytes it has not handed out yet. Both may refuse to work, and
//! each says in a spec function when it does, so that a codec's contract can
//! say exactly when a value gets through.

use vstd::prelude::*;

verus! {

/// The first `len` bytes of `bytes`, with zeros where `bytes` has run out.
pub open spec fn zero_padded(bytes: Seq<u8>, len: nat) -> Seq<u8> {
    Seq::new(
        len,
        |i: int|
            if i < bytes.len() {
                bytes[i]
            } else {
                0u8
            },
    )
}

/// How many bytes a source with `available` bytes left hands out when asked
/// for at most `limit`.
pub open spec fn taken(available: nat, limit: nat) -> nat {
    if available < limit {
        available
    } else {
        limit
    }
}

/// Something bytes can be written to.
pub trait ByteSink {
    /// All bytes written so far, oldest first.
    spec fn written(&self) -> Seq<u8>;

    /// How many more bytes the sink takes.
    spec fn room(&self) -> nat;

    /// Writes all of `bytes` or nothing. The write succeeds exactly when the
    /// sink has room for all of them: it has then grown by `bytes`, has that
    /// much less room, and the count of bytes is returned. A failed write
    /// leaves the sink as it was.
    fn write(&mut self, bytes: &[u8]) -> (r: Result<usize, ()>)
        ensures
            r is Ok <==> bytes@.len() <= old(self).room(),
            r is Ok ==> {
                &&& r == Ok::<usize, ()>(bytes.len())
                &&& final(self).written() == old(self).written() + bytes@
                &&& final(self).room() == old(self).room() - bytes@.len()
            },
            r is Err ==> {
                &&& final(self).written() == old(self).written()
                &&& final(self).room() == old(self).room()
            },
    ;
}

/// Something bytes can be read from.
pub trait ByteSource {
    /// The bytes not yet read, next one first.
    spec fn pending(&self) -> Seq<u8>;

    /// Whether a read succeeds.
    spec fn readable(&self) -> bool;

    /// Reads up to `limit` bytes: as many as are pending, but no more than
    /// `limit`. They leave the source. A failed read takes nothing.
    fn read(&mut self, limit: usize) -> (r: Result<Vec<u8>, ()>)
        ensures
            r is Ok <==> old(self).readable(),
            r is Ok ==> {
                let n = taken(old(self).pending().len(), limit as nat) as int;
                &&& r->Ok_0@ == old(self).pending().take(n)
                &&& final(self).pending() == old(self).pending().skip(n)
            },
            r is Err ==> final(self).pending() == old(self).pending(),
    ;
}

/// A sink in memory that takes bytes up to a fixed total.
pub struct MemSink {
    bytes: Vec<u8>,
    limit: usize,
}

impl MemSink {
    /// An empty sink that takes as many bytes as memory can address.
    pub fn new() -> (s: MemSink)
        ensures
            s.written() == Seq::<u8>::empty(),
            s.room() == usize::MAX,
    {
        MemSink { bytes: Vec::new(), limit: usize::MAX }
    }

    /// An empty sink that takes `limit` bytes in all.
    pub fn with_limit(limit: usize) -> (s: MemSink)
        ensures
            s.written() == Seq::<u8>::empty(),
            s.room() == limit,
    {
        MemSink { bytes: Vec::new(), limit }
    }

    /// The bytes written, oldest first.
    pub fn into_inner(self) -> (bytes: Vec<u8>)
        ensures
            bytes@ == self.written(),
    {
        self.bytes
    }
}

impl ByteSink for MemSink {
    closed spec fn written(&self) -> Seq<u8> {
        self.bytes@
    }

    closed spec fn room(&self) -> nat {
        if self.bytes@.len() <= self.limit {
            (self.limit - self.bytes@.len()) as nat
        } else {
            0
        }
    }

    fn write(&mut self, bytes: &[u8]) -> (r: Result<usize, ()>) {
        let used: usize = self.bytes.len();
        let room: usize = if used <= self.limit {
            self.limit - used
        } else {
            0
        };
        if bytes.len() > room {
            return Err(());
        }
        let mut i: usize = 0;
        while i < bytes.len()
            invariant
                i <= bytes.len(),
                self.limit == old(self).limit,
                self.bytes@ == old(self).bytes@ + bytes@.take(i as int),
            decreases bytes.len() - i,
        {
            self.bytes.push(bytes[i]);
            i += 1;
            assert(bytes@.take(i as int) == bytes@.take(i - 1).push(bytes@[i - 1]));
        }
        assert(bytes@.take(i as int) == bytes@);
        Ok(bytes.len())
    }
}

/// A source in memory: a byte string read from front to back.
pub struct MemSource {
    bytes: Vec<u8>,
    pos: usize,
}

impl MemSource {
    /// A source that hands out `bytes` from the start.
    pub fn new(bytes: Vec<u8>) -> (s: MemSource)
        ensures
            s.pending() == bytes@,
    {
        MemSource { bytes, pos: 0 }
    }

    /// How many bytes are left to read.
    pub fn remaining(&self) -> (n: usize)
        ensures
            n == self.pending().len(),
    {
        if self.pos <= self.bytes.len() {
            self.bytes.len() - self.pos
        } else {
            0
        }
    }
}

impl ByteSource for MemSource {
    closed spec fn pending(&self) -> Seq<u8> {
        if self.pos <= self.bytes@.len() {
            self.bytes@.skip(self.pos as int)
        } else {
            Seq::empty()
        }
    }

    open spec fn readable(&self) -> bool {
        true
    }

    fn read(&mut self, limit: usize) -> (r: Result<Vec<u8>, ()>) {
        let left: usize = self.remaining();
        if left == 0 {
            assert(self.pending().take(0) =~= Seq::<u8>::empty());
            assert(self.pending().skip(0) =~= self.pending());
            return Ok(Vec::new());
        }
        let n: usize = if left < limit {
            left
        } else {
            limit
        };
        let start: usize = self.pos;
        let total: usize = self.bytes.len();
        let mut out: Vec<u8> = Vec::new();
        let mut i: usize = 0;
        while i < n
            invariant
                i <= n,
                start + n <= total,
                total == self.bytes@.len(),
                out@ =~= self.bytes@.subrange(start as int, start + i),
            decreases n - i,
        {
            out.push(self.bytes[start + i]);
            i += 1;
        }
        self.pos = start + n;
        assert(out@ =~= old(self).pending().take(n as int));
        assert(self.pending() =~= old(self).pending().skip(n as int));
        Ok(out)
    }
}

} // verus!
