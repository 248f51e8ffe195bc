//! A read position over an owned byte buffer.

use vstd::prelude::*;

verus! {

/// An owned byte buffer together with the number of bytes already consumed.
pub struct ByteCursor {
    data: Vec<u8>,
    pos: usize,
}

impl ByteCursor {
    #[verifier::type_invariant]
    pub closed spec fn in_bounds(&self) -> bool {
        self.pos <= self.data.len()
    }

    /// The whole buffer, consumed part included.
    pub closed spec fn bytes(&self) -> Seq<u8> {
        self.data@
    }

    /// How many bytes have been consumed.
    pub closed spec fn consumed(&self) -> nat {
        self.pos as nat
    }

    /// The bytes that have not been consumed yet.
    pub open spec fn remaining(&self) -> Seq<u8> {
        self.bytes().skip(self.consumed() as int)
    }

    /// A cursor never runs past the end of its buffer.
    pub proof fn lemma_in_bounds(&self)
        requires
            self.in_bounds(),
        ensures
            self.consumed() <= self.bytes().len(),
            self.remaining().len() == self.bytes().len() - self.consumed(),
    {
    }

    /// A cursor at the start of `data`.
    pub fn new(data: Vec<u8>) -> (cursor: Self)
        ensures
            cursor.bytes() == data@,
            cursor.consumed() == 0,
            cursor.remaining() == data@,
    {
        let cursor = ByteCursor { data, pos: 0 };
        assert(cursor.data@.skip(0) =~= cursor.data@);
        cursor
    }

    /// The number of bytes consumed so far.
    pub fn position(&self) -> (pos: usize)
        ensures
            pos == self.consumed(),
            pos <= self.bytes().len(),
    {
        proof {
            use_type_invariant(self);
        }
        self.pos
    }

    /// The number of bytes that are left to read.
    pub fn remaining_len(&self) -> (count: usize)
        ensures
            count == self.remaining().len(),
            count == self.bytes().len() - self.consumed(),
    {
        proof {
            use_type_invariant(self);
        }
        self.data.len() - self.pos
    }

    /// Gives the buffer back, consumed part included.
    pub fn into_inner(self) -> (data: Vec<u8>)
        ensures
            data@ == self.bytes(),
    {
        self.data
    }

    /// Consumes one byte, if there is one.
    pub fn next_byte(&mut self) -> (byte: Option<u8>)
        ensures
            final(self).bytes() == old(self).bytes(),
            old(self).remaining().len() > 0 ==> byte == Some(old(self).remaining()[0])
                && final(self).consumed() == old(self).consumed() + 1
                && final(self).remaining() == old(self).remaining().skip(1),
            old(self).remaining().len() == 0 ==> byte is None && final(self).consumed() == old(
                self,
            ).consumed() && final(self).remaining() == old(self).remaining(),
    {
        proof {
            use_type_invariant(&*self);
        }
        if self.pos < self.data.len() {
            let byte = self.data[self.pos];
            self.pos = self.pos + 1;
            assert(final(self).remaining() =~= old(self).remaining().skip(1));
            Some(byte)
        } else {
            None
        }
    }

    /// Consumes exactly `count` bytes. When fewer are left, consumes them all
    /// and returns nothing.
    pub fn take(&mut self, count: usize) -> (taken: Option<Vec<u8>>)
        ensures
            final(self).bytes() == old(self).bytes(),
            count <= old(self).remaining().len() ==> (taken matches Some(v) && v@ == old(
                self,
            ).remaining().take(count as int)) && final(self).consumed() == old(self).consumed()
                + count && final(self).remaining() == old(self).remaining().skip(count as int),
            count > old(self).remaining().len() ==> taken is None && final(self).consumed() == old(
                self,
            ).bytes().len() && final(self).remaining() == Seq::<u8>::empty(),
    {
        proof {
            use_type_invariant(&*self);
        }
        let left = self.data.len() - self.pos;
        if count > left {
            self.pos = self.data.len();
            assert(final(self).remaining() =~= Seq::<u8>::empty());
            return None;
        }
        let start = self.pos;
        let end = start + count;
        let mut out: Vec<u8> = Vec::new();
        let mut i: usize = start;
        while i < end
            invariant
                start <= i <= end,
                end <= self.data.len(),
                self.pos == start,
                self.data@ == old(self).data@,
                out@ == self.data@.subrange(start as int, i as int),
            decreases end - i,
        {
            out.push(self.data[i]);
            i = i + 1;
            assert(out@ =~= self.data@.subrange(start as int, i as int));
        }
        self.pos = end;
        assert(out@ =~= old(self).remaining().take(count as int));
        assert(final(self).remaining() =~= old(self).remaining().skip(count as int));
        Some(out)
    }
}

} // verus!
