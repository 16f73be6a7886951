//! Byte-level access to an integer: the whole view, one byte, or one
//! byte replaced.

use crate::pod::{lemma_le_bytes_le_value, lemma_pod_bytes_len, pod_bytes, Pod};
use vstd::prelude::*;

verus! {

/// A value's bytes, and writing them one at a time.
pub trait ByteSlice: Pod {
    /// Read-only copy of the value's byte view.
    fn byte_slice(&self) -> (r: Vec<u8>)
        ensures
            r@ == pod_bytes(*self),
    ;

    /// Replaces byte `idx` of the value's byte view, turning the value
    /// into the one whose view that is: writing through the byte view,
    /// one byte at a time.
    fn set_byte(&mut self, idx: usize, value: u8)
        requires
            idx < Self::size_spec(),
        ensures
            pod_bytes(*final (self)) == pod_bytes(*old(self)).update(idx as int, value),
    ;
}

/// Indexing over an integer's bytes.
pub trait ByteIndex: ByteSlice {
    /// Byte `idx` of the value's byte view, or nothing when `idx` is
    /// out of bounds.
    fn byte(&self, idx: usize) -> (r: Option<u8>)
        ensures
            match r {
                Some(b) => idx < Self::size_spec() && b == pod_bytes(*self)[idx as int],
                None => idx >= Self::size_spec(),
            },
    ;
}

impl<T: Pod> ByteSlice for T {
    fn byte_slice(&self) -> Vec<u8> {
        self.pod_to_bytes()
    }

    fn set_byte(&mut self, idx: usize, value: u8) {
        let mut bytes = self.pod_to_bytes();
        proof {
            lemma_pod_bytes_len(*self);
        }
        bytes[idx] = value;
        *self = T::pod_from_bytes(bytes.as_slice());
        proof {
            lemma_le_bytes_le_value(bytes@);
        }
    }
}

impl<T: Pod> ByteIndex for T {
    fn byte(&self, idx: usize) -> Option<u8> {
        let size = T::size_of();
        if idx >= size {
            None
        } else {
            let bytes = self.pod_to_bytes();
            proof {
                lemma_pod_bytes_len(*self);
            }
            Some(bytes[idx])
        }
    }
}

} // verus!
