//! Byte sources: where a tokenizing reader takes its bytes from.

use vstd::prelude::*;
use vstd::slice::slice_subrange;

verus! {

/// A source of bytes that is consumed front to back, one byte at a time.
///
/// The bytes that are still to come are the source's model: handing out a
/// byte takes the first of them away, and nothing else changes them.
pub trait ByteSource {
    /// The bytes that have not been handed out yet, in order.
    spec fn remaining(&self) -> Seq<u8>;

    /// Hands out the next byte, or `None` once the source is exhausted.
    fn next_byte(&mut self) -> (b: Option<u8>)
        ensures
            old(self).remaining().len() == 0 ==> b is None && final(self).remaining()
                == old(self).remaining(),
            old(self).remaining().len() > 0 ==> b == Some(old(self).remaining()[0])
                && final(self).remaining() == old(self).remaining().skip(1),
    ;
}

/// A byte source over bytes held in memory. More bytes can be supplied
/// behind those that it holds, so that a file or a pipe is read piece by piece.
pub struct MemorySource {
    data: Vec<u8>,
    pos: usize,
}

impl MemorySource {
    /// The bytes from the cursor to the end.
    pub closed spec fn unread(&self) -> Seq<u8> {
        if self.pos <= self.data.len() {
            self.data@.skip(self.pos as int)
        } else {
            Seq::empty()
        }
    }

    /// A source that hands out `data` from its first byte on.
    pub fn new(data: Vec<u8>) -> (s: MemorySource)
        ensures
            s.unread() == data@,
    {
        let s = MemorySource { data, pos: 0 };
        s
    }

    /// The number of bytes that are still to come.
    pub fn unread_len(&self) -> (n: usize)
        ensures
            n == self.unread().len(),
    {
        if self.pos <= self.data.len() {
            self.data.len() - self.pos
        } else {
            0
        }
    }

    /// The bytes that are still to come.
    pub fn unread_bytes(&self) -> (bytes: &[u8])
        ensures
            bytes@ == self.unread(),
    {
        let end = self.data.len();
        let start = if self.pos <= end {
            self.pos
        } else {
            end
        };
        let bytes = slice_subrange(self.data.as_slice(), start, end);
        bytes
    }

    /// Puts `bytes` behind the bytes that are still to come.
    pub fn supply(&mut self, bytes: &[u8])
        ensures
            final(self).unread() == old(self).unread() + bytes@,
    {
        if self.pos >= self.data.len() {
            self.data.clear();
            self.pos = 0;
        }
        let ghost before = self.data@.skip(self.pos as int);
        let mut i: usize = 0;
        while i < bytes.len()
            invariant
                i <= bytes.len(),
                self.pos <= self.data.len(),
                self.pos == self.data.len() - before.len() - i,
                self.data@.skip(self.pos as int) == before + bytes@.take(i as int),
            decreases bytes.len() - i,
        {
            let ghost held = self.data@;
            self.data.push(bytes[i]);
            assert(self.data@.skip(self.pos as int) =~= held.skip(self.pos as int).push(
                bytes@[i as int],
            ));
            i = i + 1;
        }
    }
}

impl ByteSource for MemorySource {
    open spec fn remaining(&self) -> Seq<u8> {
        self.unread()
    }

    fn next_byte(&mut self) -> (b: Option<u8>) {
        if self.pos < self.data.len() {
            let byte: u8 = self.data[self.pos];
            self.pos = self.pos + 1;
            Some(byte)
        } else {
            None
        }
    }
}

} // verus!
