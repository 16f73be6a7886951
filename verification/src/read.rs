//! Sequential byte-slice reader.
//!
//! A [`Read`] cursor walks a borrowed byte buffer from front to back and
//! interprets, at each step, the next `size_spec` bytes as a POD value.
//! The cursor only ever moves forward; once fewer bytes remain than one
//! value needs, the reader is exhausted and stays exhausted.

use crate::pod::{lemma_le_bytes_le_value, pod_bytes, Pod};
use core::marker::PhantomData;
use vstd::prelude::*;

verus! {

/// Byte slice reader: a buffer, an advance-only cursor, and the type the
/// bytes are read as.
#[derive(Copy)]
pub struct Read<'a, OUT> {
    bytes: &'a [u8],
    cursor: usize,
    _out: PhantomData<OUT>,
}

impl<'a, OUT: Copy> Clone for Read<'a, OUT> {
    fn clone(&self) -> (r: Self)
        ensures
            r == *self,
    {
        *self
    }
}

impl<'a, OUT: Pod> Read<'a, OUT> {
    /// The buffer the reader was bound to.
    pub closed spec fn buffer_spec(self) -> Seq<u8> {
        self.bytes@
    }

    /// The cursor position, in bytes from the front of the buffer.
    pub closed spec fn cursor_spec(self) -> nat {
        self.cursor as nat
    }

    /// Bytes between the cursor and the end of the buffer.  A cursor past
    /// the end leaves nothing remaining.
    pub open spec fn remaining_bytes_spec(self) -> nat {
        if self.cursor_spec() <= self.buffer_spec().len() {
            (self.buffer_spec().len() - self.cursor_spec()) as nat
        } else {
            0
        }
    }

    /// Whole values still readable: every read consumes `OUT::size_spec()`
    /// bytes, so this is exactly the number of reads that will succeed.
    pub open spec fn remaining_spec(self) -> nat {
        self.remaining_bytes_spec() / OUT::size_spec()
    }

    /// The bytes the next read interprets.
    pub open spec fn head_bytes_spec(self) -> Seq<u8> {
        self.buffer_spec().subrange(
            self.cursor_spec() as int,
            self.cursor_spec() + OUT::size_spec() as int,
        )
    }

    /// Creates a reader over `bytes`, cursor at the front.
    pub fn new(bytes: &'a [u8]) -> (r: Self)
        ensures
            r.buffer_spec() == bytes@,
            r.cursor_spec() == 0,
    {
        Self { bytes, cursor: 0, _out: PhantomData }
    }

    /// Reads the value at the cursor without a bounds check, which the
    /// caller must have established; the cursor does not move.
    pub fn read_unchecked(&self) -> (r: OUT)
        requires
            self.remaining_bytes_spec() >= OUT::size_spec(),
        ensures
            pod_bytes(r) == self.head_bytes_spec(),
    {
        proof {
            OUT::lemma_size();
        }
        let size = OUT::size_of();
        let _buffer_len: usize = self.bytes.len();
        let r = OUT::pod_from_bytes(&self.bytes[self.cursor..self.cursor + size]);
        proof {
            lemma_le_bytes_le_value(self.head_bytes_spec());
        }
        r
    }

    /// Reads the value at the cursor, if at least one value's bytes
    /// remain; the cursor does not move.
    pub fn read(&self) -> (r: Option<OUT>)
        ensures
            match r {
                Some(v) => self.remaining_bytes_spec() >= OUT::size_spec() && pod_bytes(v)
                    == self.head_bytes_spec(),
                None => self.remaining_bytes_spec() < OUT::size_spec(),
            },
    {
        proof {
            OUT::lemma_size();
        }
        let size = OUT::size_of();
        if self.cursor < self.bytes.len() && self.bytes.len() - self.cursor >= size {
            Some(self.read_unchecked())
        } else {
            None
        }
    }

    /// Moves the cursor `add` bytes forward, saturating at the largest
    /// representable position; the position never decreases and the
    /// buffer is unchanged.
    pub fn advance(self, add: usize) -> (r: Self)
        ensures
            r.buffer_spec() == self.buffer_spec(),
            r.cursor_spec() == if self.cursor_spec() + add <= usize::MAX {
                self.cursor_spec() + add
            } else {
                usize::MAX as int
            },
            r.cursor_spec() >= self.cursor_spec(),
    {
        let cursor = if add <= usize::MAX - self.cursor {
            self.cursor + add
        } else {
            usize::MAX
        };
        Self { bytes: self.bytes, cursor, _out: PhantomData }
    }

    /// The number of values available to read: the remaining bytes, in
    /// units of whole values.
    pub fn remaining(&self) -> (n: usize)
        ensures
            n == self.remaining_spec(),
    {
        proof {
            OUT::lemma_size();
        }
        let size = OUT::size_of();
        if self.cursor >= self.bytes.len() {
            proof {
                vstd::arithmetic::div_mod::lemma_div_of0(OUT::size_spec() as int);
            }
            0
        } else {
            (self.bytes.len() - self.cursor) / size
        }
    }

    /// Reads the value at the cursor and steps over it.  Succeeds exactly
    /// `remaining_spec()` more times: each success consumes one value's
    /// bytes, and a reader with nothing left stays unchanged, so once
    /// `None` comes back it comes back forever.
    pub fn next(&mut self) -> (r: Option<OUT>)
        ensures
            final (self).buffer_spec() == old(self).buffer_spec(),
            match r {
                Some(v) => {
                    &&& old(self).remaining_spec() > 0
                    &&& pod_bytes(v) == old(self).head_bytes_spec()
                    &&& final (self).cursor_spec() == old(self).cursor_spec() + OUT::size_spec()
                    &&& final (self).remaining_spec() == old(self).remaining_spec() - 1
                },
                None => {
                    &&& old(self).remaining_spec() == 0
                    &&& *final (self) == *old(self)
                },
            },
    {
        proof {
            OUT::lemma_size();
        }
        let _buffer_len: usize = self.bytes.len();
        match self.read() {
            Some(res) => {
                let ghost rb = old(self).remaining_bytes_spec();
                let ghost size = OUT::size_spec();
                *self = self.advance(OUT::size_of());
                proof {
                    vstd::arithmetic::div_mod::lemma_div_non_zero(rb as int, size as int);
                    vstd::arithmetic::div_mod::lemma_div_minus_one(rb as int, size as int);
                }
                Some(res)
            },
            None => {
                proof {
                    vstd::arithmetic::div_mod::lemma_basic_div(
                        old(self).remaining_bytes_spec() as int,
                        OUT::size_spec() as int,
                    );
                }
                None
            },
        }
    }

    /// The exact number of values left, twice over: the lazy sequence the
    /// reader produces has a fully known length.
    pub fn size_hint(&self) -> (r: (usize, Option<usize>))
        ensures
            r.0 == self.remaining_spec(),
            r.1 == Some(r.0),
    {
        let len = self.remaining();
        (len, Some(len))
    }

    /// Exhaustion is absorbing: the cursor never decreases, so any later
    /// state of an exhausted reader over the same buffer is exhausted too.
    pub proof fn lemma_exhausted_absorbing(self, later: Self)
        requires
            later.buffer_spec() == self.buffer_spec(),
            later.cursor_spec() >= self.cursor_spec(),
            self.remaining_spec() == 0,
        ensures
            later.remaining_spec() == 0,
    {
        OUT::lemma_size();
        vstd::arithmetic::div_mod::lemma_small_div_converse(
            self.remaining_bytes_spec() as int,
            OUT::size_spec() as int,
        );
        vstd::arithmetic::div_mod::lemma_basic_div(
            later.remaining_bytes_spec() as int,
            OUT::size_spec() as int,
        );
    }
}

} // verus!
