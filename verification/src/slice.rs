//! Borrow-style access to a value's bytes, and sequential reading from
//! a shrinking slice.

use crate::pod::{lemma_le_bytes_le_value, pod_bytes, Pod};
use vstd::prelude::*;

verus! {

/// A value's bytes, by the value itself.
pub trait AsBytes: Pod {
    /// The value's byte view, as an owned vector.
    fn as_bytes(&self) -> (r: Vec<u8>)
        ensures
            r@ == pod_bytes(*self),
    ;
}

impl<T: Pod> AsBytes for T {
    fn as_bytes(&self) -> Vec<u8> {
        self.pod_to_bytes()
    }
}

/// Reading typed values off the front of a byte sequence that shrinks
/// as it is read.
pub trait ReadBytes {
    /// The bytes not yet read.
    spec fn src_bytes(&self) -> Seq<u8>;

    /// Reads one value from the front and steps over its bytes.
    /// Succeeds exactly when at least the value's size remains; a
    /// shorter remainder is reported and left as it was.
    fn read_value<T: Pod>(&mut self) -> (r: Option<T>)
        ensures
            match r {
                Some(v) => {
                    &&& old(self).src_bytes().len() >= T::size_spec()
                    &&& pod_bytes(v) == old(self).src_bytes().subrange(
                        0,
                        T::size_spec() as int,
                    )
                    &&& final (self).src_bytes() == old(self).src_bytes().skip(
                        T::size_spec() as int,
                    )
                },
                None => {
                    &&& old(self).src_bytes().len() < T::size_spec()
                    &&& final (self).src_bytes() == old(self).src_bytes()
                },
            },
    ;

    /// Reads one value from the front without the length check, which
    /// the caller must have established, and steps over its bytes.
    fn read_value_unchecked<T: Pod>(&mut self) -> (r: T)
        requires
            old(self).src_bytes().len() >= T::size_spec(),
        ensures
            pod_bytes(r) == old(self).src_bytes().subrange(0, T::size_spec() as int),
            final (self).src_bytes() == old(self).src_bytes().skip(T::size_spec() as int),
    ;
}

impl<'a> ReadBytes for &'a [u8] {
    open spec fn src_bytes(&self) -> Seq<u8> {
        (*self)@
    }

    fn read_value<T: Pod>(&mut self) -> Option<T> {
        proof {
            T::lemma_size();
        }
        let size = T::size_of();
        if self.len() < size {
            None
        } else {
            Some(self.read_value_unchecked())
        }
    }

    fn read_value_unchecked<T: Pod>(&mut self) -> T {
        let size = T::size_of();
        let r = T::pod_from_bytes(&self[0..size]);
        proof {
            lemma_le_bytes_le_value((*self)@.subrange(0, T::size_spec() as int));
        }
        let rest: &'a [u8] = vstd::slice::slice_subrange(*self, size, self.len());
        *self = rest;
        proof {
            assert(rest@ =~= old(self)@.skip(T::size_spec() as int));
        }
        r
    }
}

} // verus!
