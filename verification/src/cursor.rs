//! A forward-only read position over a borrowed byte slice.
use vstd::prelude::*;
use vstd::slice::slice_subrange;

verus! {

/// A byte slice and the index of the next byte to read. A position at or past
/// the end of the slice means that nothing is left.
#[derive(Clone, Copy)]
pub struct ByteCursor<'a> {
    pub data: &'a [u8],
    pub position: usize,
}

impl<'a> ByteCursor<'a> {
    /// A cursor at the first byte of `data`.
    pub fn new(data: &'a [u8]) -> (cursor: Self)
        ensures
            cursor.data@ == data@,
            cursor.position == 0,
    {
        ByteCursor { data, position: 0 }
    }

    /// The number of bytes that are still unread.
    pub open spec fn spec_remaining(&self) -> int {
        if self.position <= self.data@.len() {
            self.data@.len() - self.position
        } else {
            0
        }
    }

    /// The number of bytes that are still unread.
    pub fn remaining(&self) -> (n: usize)
        ensures
            n == self.spec_remaining(),
    {
        if self.position <= self.data.len() {
            self.data.len() - self.position
        } else {
            0
        }
    }

    /// Reads one byte, or nothing at the end of the data.
    pub fn read_u8(&mut self) -> (r: Option<u8>)
        ensures
            final(self).data@ == old(self).data@,
            match r {
                Some(b) => {
                    &&& old(self).position < old(self).data@.len()
                    &&& b == old(self).data@[old(self).position as int]
                    &&& final(self).position == old(self).position + 1
                },
                None => {
                    &&& old(self).position >= old(self).data@.len()
                    &&& final(self).position == old(self).position
                },
            },
    {
        if self.position < self.data.len() {
            let b = self.data[self.position];
            self.position = self.position + 1;
            Some(b)
        } else {
            None
        }
    }

    /// Reads the next `n` bytes, or nothing where fewer are left.
    pub fn read_bytes(&mut self, n: usize) -> (r: Option<&'a [u8]>)
        ensures
            final(self).data@ == old(self).data@,
            match r {
                Some(bytes) => {
                    &&& old(self).position + n <= old(self).data@.len()
                    &&& bytes@ == old(self).data@.subrange(
                        old(self).position as int,
                        old(self).position + n,
                    )
                    &&& final(self).position == old(self).position + n
                },
                None => {
                    &&& old(self).position + n > old(self).data@.len()
                    &&& final(self).position == old(self).position
                },
            },
    {
        if self.position <= self.data.len() && n <= self.data.len() - self.position {
            let bytes = slice_subrange(self.data, self.position, self.position + n);
            self.position = self.position + n;
            Some(bytes)
        } else {
            None
        }
    }
}

} // verus!
