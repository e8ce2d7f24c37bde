//! The byte-addressable memory region: a monotonically growing,
//! word-aligned byte buffer.

use crate::word::Word;
use vstd::prelude::*;

verus! {

/// Byte-addressable memory of one execution. The view is the byte contents.
pub struct SharedMemory {
    data: Vec<u8>,
}

impl View for SharedMemory {
    type V = Seq<u8>;

    closed spec fn view(&self) -> Seq<u8> {
        self.data@
    }
}

impl SharedMemory {
    /// Memory always holds a whole number of 32-byte words.
    pub open spec fn wf(&self) -> bool {
        self@.len() % 32 == 0
    }

    pub fn new() -> (m: SharedMemory)
        ensures
            m.wf(),
            m@ =~= Seq::<u8>::empty(),
    {
        SharedMemory { data: Vec::new() }
    }

    pub fn len(&self) -> (n: usize)
        ensures
            n == self@.len(),
    {
        self.data.len()
    }

    pub fn read_byte(&self, i: usize) -> (b: u8)
        requires
            i < self@.len(),
        ensures
            b == self@[i as int],
    {
        self.data[i]
    }

    /// Extends the buffer with zero bytes up to `new_len`.
    pub fn grow_to(&mut self, new_len: usize)
        requires
            new_len >= old(self)@.len(),
        ensures
            final(self)@ == old(self)@ + Seq::new(
                (new_len - old(self)@.len()) as nat,
                |i: int| 0u8,
            ),
    {
        while self.data.len() < new_len
            invariant
                old(self)@.len() <= self.data@.len() <= new_len,
                self.data@ =~= old(self)@ + Seq::new(
                    (self.data@.len() - old(self)@.len()) as nat,
                    |i: int| 0u8,
                ),
            decreases new_len - self.data@.len(),
        {
            self.data.push(0u8);
        }
    }

    /// The 32-byte word starting at `offset`.
    pub fn get_word(&self, offset: usize) -> (w: Word)
        requires
            offset + 32 <= self@.len(),
        ensures
            w.wf(),
            w@ == self@.subrange(offset as int, offset as int + 32),
    {
        let n = self.data.len();
        let mut bytes: Vec<u8> = Vec::new();
        let mut i: usize = 0;
        while i < 32
            invariant
                offset + 32 <= n,
                n == self@.len(),
                i <= 32,
                bytes@ =~= self@.subrange(offset as int, offset as int + i),
            decreases 32 - i,
        {
            bytes.push(self.data[offset + i]);
            i += 1;
        }
        Word::from_bytes(bytes)
    }

    /// Writes the 32 bytes of `w` starting at `offset`.
    pub fn set_word(&mut self, offset: usize, w: &Word)
        requires
            w.wf(),
            offset + 32 <= old(self)@.len(),
        ensures
            final(self)@ == old(self)@.subrange(0, offset as int) + w@ + old(self)@.subrange(
                offset as int + 32,
                old(self)@.len() as int,
            ),
    {
        let n = self.data.len();
        let mut i: usize = 0;
        while i < 32
            invariant
                w.wf(),
                offset + 32 <= n,
                i <= 32,
                self.data@.len() == n,
                n == old(self)@.len(),
                forall|k: int|
                    0 <= k < self.data@.len() && !(offset <= k < offset + i) ==> self.data@[k]
                        == old(self)@[k],
                forall|k: int|
                    offset <= k < offset + i ==> self.data@[k] == w@[k - offset],
            decreases 32 - i,
        {
            self.data[offset + i] = w.byte_at(i);
            i += 1;
        }
        proof {
            assert(self@ =~= old(self)@.subrange(0, offset as int) + w@ + old(self)@.subrange(
                offset as int + 32,
                old(self)@.len() as int,
            ));
        }
    }

    /// Writes one byte at `offset`.
    pub fn set_byte(&mut self, offset: usize, b: u8)
        requires
            offset < old(self)@.len(),
        ensures
            final(self)@ == old(self)@.update(offset as int, b),
    {
        self.data[offset] = b;
    }

    /// Copies `len` bytes from `src` to `dst`, as if through an intermediate
    /// buffer; the two ranges may overlap.
    pub fn copy_within(&mut self, dst: usize, src: usize, len: usize)
        requires
            dst + len <= old(self)@.len(),
            src + len <= old(self)@.len(),
        ensures
            final(self)@ == old(self)@.subrange(0, dst as int) + old(self)@.subrange(
                src as int,
                src as int + len,
            ) + old(self)@.subrange(dst as int + len, old(self)@.len() as int),
    {
        let n = self.data.len();
        let mut buf: Vec<u8> = Vec::new();
        let mut i: usize = 0;
        while i < len
            invariant
                src + len <= n,
                n == self@.len(),
                i <= len,
                buf@ =~= self@.subrange(src as int, src as int + i),
            decreases len - i,
        {
            buf.push(self.data[src + i]);
            i += 1;
        }
        let mut j: usize = 0;
        while j < len
            invariant
                dst + len <= n,
                n == old(self)@.len(),
                j <= len,
                buf@.len() == len,
                buf@ == old(self)@.subrange(src as int, src as int + len),
                self.data@.len() == n,
                forall|k: int|
                    0 <= k < self.data@.len() && !(dst <= k < dst + j) ==> self.data@[k]
                        == old(self)@[k],
                forall|k: int| dst <= k < dst + j ==> self.data@[k] == buf@[k - dst],
            decreases len - j,
        {
            self.data[dst + j] = buf[j];
            j += 1;
        }
        proof {
            assert(self@ =~= old(self)@.subrange(0, dst as int) + old(self)@.subrange(
                src as int,
                src as int + len,
            ) + old(self)@.subrange(dst as int + len, old(self)@.len() as int));
        }
    }
}

} // verus!
