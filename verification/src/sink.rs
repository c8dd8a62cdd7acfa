//! Where the bytes of a file go: a buffer in memory with a position that
//! can be written at and rewound.

use crate::bytes::zeros;
use vstd::prelude::*;

verus! {

/// A stream after `bytes` were written at `position`: they replace what
/// stood there and lengthen the stream where they reach past its end. Where
/// the position lies past the end, zero bytes fill the gap. Writing nothing
/// changes nothing.
pub open spec fn written(stream: Seq<u8>, position: nat, bytes: Seq<u8>) -> Seq<u8> {
    if bytes.len() == 0 {
        stream
    } else {
        let base = if position > stream.len() {
            stream + zeros((position - stream.len()) as nat)
        } else {
            stream
        };
        let end = position + bytes.len();
        let rest = if end < base.len() {
            base.subrange(end as int, base.len() as int)
        } else {
            Seq::<u8>::empty()
        };
        base.subrange(0, position as int) + bytes + rest
    }
}

/// A growable buffer in memory and a position in it.
#[derive(Clone, Debug)]
pub struct Cursor {
    bytes: Vec<u8>,
    position: usize,
}

impl Cursor {
    /// The bytes of the buffer.
    pub closed spec fn bytes(&self) -> Seq<u8> {
        self.bytes@
    }

    /// The position in the buffer.
    pub closed spec fn offset(&self) -> nat {
        self.position as nat
    }

    /// A cursor at the start of the buffer.
    pub fn new(bytes: Vec<u8>) -> (cursor: Cursor)
        ensures
            cursor.bytes() == bytes@,
            cursor.offset() == 0,
    {
        Cursor { bytes, position: 0 }
    }

    /// Where the next write goes.
    pub fn position(&self) -> (position: usize)
        ensures
            position == self.offset(),
    {
        self.position
    }

    /// Moves the position.
    pub fn set_position(&mut self, position: usize)
        ensures
            final(self).bytes() == old(self).bytes(),
            final(self).offset() == position,
    {
        self.position = position;
    }

    /// The buffer.
    pub fn get_ref(&self) -> (bytes: &Vec<u8>)
        ensures
            bytes@ == self.bytes(),
    {
        &self.bytes
    }

    /// Gives up the cursor for its buffer.
    pub fn into_inner(self) -> (bytes: Vec<u8>)
        ensures
            bytes@ == self.bytes(),
    {
        self.bytes
    }
}

impl Cursor {
    /// Writes the bytes at the position and moves the position past them.
    pub fn write_all(&mut self, bytes: &[u8])
        ensures
            final(self).bytes() == written(old(self).bytes(), old(self).offset(), bytes@),
            final(self).offset() == old(self).offset() + bytes@.len(),
    {
        if bytes.len() == 0 {
            return ;
        }
        let ghost before = self.bytes@;
        let start = self.position;
        while self.bytes.len() < start
            invariant
                self.position == start,
                before.len() <= self.bytes@.len(),
                self.bytes@.len() <= start || self.bytes@.len() == before.len(),
                self.bytes@ == before + zeros((self.bytes@.len() - before.len()) as nat),
            decreases start - self.bytes.len(),
        {
            self.bytes.push(0u8);
            assert(self.bytes@ =~= before + zeros((self.bytes@.len() - before.len()) as nat));
        }
        let ghost base = self.bytes@;
        assert(base =~= if start > before.len() {
            before + zeros((start - before.len()) as nat)
        } else {
            before
        }) by {
            if start <= before.len() {
                assert(before + zeros(0) =~= before);
            }
        }
        let mut at: usize = start;
        let mut i: usize = 0;
        while i < bytes.len()
            invariant
                i <= bytes.len(),
                at == start + i,
                at <= self.bytes@.len(),
                start <= base.len(),
                self.position == start,
                self.bytes@.len() == (if at > base.len() {
                    at as int
                } else {
                    base.len() as int
                }),
                forall|j: int| 0 <= j < start ==> self.bytes@[j] == base[j],
                forall|j: int| start <= j < at ==> self.bytes@[j] == bytes@[j - start],
                forall|j: int| at <= j < base.len() ==> self.bytes@[j] == base[j],
            decreases bytes.len() - i,
        {
            if at < self.bytes.len() {
                self.bytes.set(at, bytes[i]);
            } else {
                self.bytes.push(bytes[i]);
            }
            let len = self.bytes.len();
            assert(at < len);
            at += 1;
            i += 1;
        }
        self.position = at;
        assert(self.bytes@ =~= written(before, start as nat, bytes@));
    }

    /// Moves the position to the start of the buffer.
    pub fn rewind(&mut self)
        ensures
            final(self).bytes() == old(self).bytes(),
            final(self).offset() == 0,
    {
        self.position = 0;
    }
}

} // verus!
