//! Cast traits: the byte conversions as methods on the types involved.
//!
//! [`ToBytesCast`] hangs the value-to-bytes conversions on every POD
//! type; [`FromBytesCast`] hangs the length-checked bytes-to-value cast
//! on byte sources whose length only a run-time check can establish;
//! [`FromBytesCastLazy`] hangs the unchecked cast on byte sources whose
//! length is already part of their type.

use crate::convert::{bytes_cast, copy_bytes, from_bytes};
use crate::pod::{lemma_pod_bytes_len, pod_bytes, Pod};
use vstd::prelude::*;

verus! {

/// Conversions from a POD value to its bytes, as methods of the value.
pub trait ToBytesCast: Pod {
    /// The value's byte view, as a freshly allocated vector.
    fn to_bytes(&self) -> (r: Vec<u8>)
        ensures
            r@ == pod_bytes(*self),
    ;

    /// Writes the value's byte view over the front of `to`; succeeds
    /// exactly when `to` is at least the value's size, and then leaves
    /// the bytes past the value's size untouched.  A shorter slice is
    /// reported and left unchanged.
    fn copy_to_bytes(&self, to: &mut [u8]) -> (r: Result<(), ()>)
        ensures
            match r {
                Ok(_) => old(to)@.len() >= Self::size_spec() && final (to)@ == pod_bytes(*self)
                    + old(to)@.subrange(Self::size_spec() as int, old(to)@.len() as int),
                Err(_) => old(to)@.len() < Self::size_spec() && final (to)@ == old(to)@,
            },
    ;

    /// Byte `index` of the value's byte view, or nothing when `index`
    /// is past the value's size.
    fn get_byte(&self, index: usize) -> (r: Option<u8>)
        ensures
            match r {
                Some(b) => index < Self::size_spec() && b == pod_bytes(*self)[index as int],
                None => index >= Self::size_spec(),
            },
    ;
}

impl<T: Pod> ToBytesCast for T {
    fn to_bytes(&self) -> Vec<u8> {
        self.pod_to_bytes()
    }

    fn copy_to_bytes(&self, to: &mut [u8]) -> Result<(), ()> {
        copy_bytes(*self, to)
    }

    fn get_byte(&self, index: usize) -> Option<u8> {
        let size = T::size_of();
        if index >= size {
            None
        } else {
            let bytes = self.pod_to_bytes();
            proof {
                lemma_pod_bytes_len(*self);
            }
            Some(bytes[index])
        }
    }
}

/// The length-checked cast from a byte source to a POD value, as a
/// method of the source.
pub trait FromBytesCast<T: Pod> {
    /// The bytes the source holds.
    spec fn src_bytes(&self) -> Seq<u8>;

    /// Reads a value from the front of the source.  Succeeds exactly
    /// when the source holds at least the value's size in bytes; the
    /// value read is the one whose byte view the prefix of that size is.
    fn cast_to(&self) -> (r: Result<T, ()>)
        ensures
            match r {
                Ok(v) => self.src_bytes().len() >= T::size_spec() && pod_bytes(v)
                    == self.src_bytes().subrange(0, T::size_spec() as int),
                Err(_) => self.src_bytes().len() < T::size_spec(),
            },
    ;
}

impl<T: Pod> FromBytesCast<T> for Vec<u8> {
    open spec fn src_bytes(&self) -> Seq<u8> {
        self@
    }

    fn cast_to(&self) -> Result<T, ()> {
        bytes_cast(self.as_slice())
    }
}

impl<T: Pod> FromBytesCast<T> for [u8] {
    open spec fn src_bytes(&self) -> Seq<u8> {
        self@
    }

    fn cast_to(&self) -> Result<T, ()> {
        bytes_cast(self)
    }
}

impl<'a, T: Pod> FromBytesCast<T> for &'a [u8] {
    open spec fn src_bytes(&self) -> Seq<u8> {
        (*self)@
    }

    fn cast_to(&self) -> Result<T, ()> {
        bytes_cast(*self)
    }
}

/// The cast from a byte source of statically known length to the POD
/// value of exactly that size; nothing is checked at run time because
/// nothing can fail.
pub trait FromBytesCastLazy<T: Pod> {
    /// The bytes the source holds.
    spec fn src_bytes(&self) -> Seq<u8>;

    /// The value whose byte view the source is.
    fn cast_to(&self) -> (r: T)
        ensures
            pod_bytes(r) == self.src_bytes(),
    ;
}


impl FromBytesCastLazy<u16> for [u8; 2] {
    open spec fn src_bytes(&self) -> Seq<u8> {
        self@
    }

    fn cast_to(&self) -> u16 {
        from_bytes(self)
    }
}

impl FromBytesCastLazy<i16> for [u8; 2] {
    open spec fn src_bytes(&self) -> Seq<u8> {
        self@
    }

    fn cast_to(&self) -> i16 {
        from_bytes(self)
    }
}

impl FromBytesCastLazy<u32> for [u8; 4] {
    open spec fn src_bytes(&self) -> Seq<u8> {
        self@
    }

    fn cast_to(&self) -> u32 {
        from_bytes(self)
    }
}

impl FromBytesCastLazy<i32> for [u8; 4] {
    open spec fn src_bytes(&self) -> Seq<u8> {
        self@
    }

    fn cast_to(&self) -> i32 {
        from_bytes(self)
    }
}

impl FromBytesCastLazy<u64> for [u8; 8] {
    open spec fn src_bytes(&self) -> Seq<u8> {
        self@
    }

    fn cast_to(&self) -> u64 {
        from_bytes(self)
    }
}

impl FromBytesCastLazy<i64> for [u8; 8] {
    open spec fn src_bytes(&self) -> Seq<u8> {
        self@
    }

    fn cast_to(&self) -> i64 {
        from_bytes(self)
    }
}

impl FromBytesCastLazy<u128> for [u8; 16] {
    open spec fn src_bytes(&self) -> Seq<u8> {
        self@
    }

    fn cast_to(&self) -> u128 {
        from_bytes(self)
    }
}

impl FromBytesCastLazy<i128> for [u8; 16] {
    open spec fn src_bytes(&self) -> Seq<u8> {
        self@
    }

    fn cast_to(&self) -> i128 {
        from_bytes(self)
    }
}

impl FromBytesCastLazy<u16> for (u8, u8) {
    open spec fn src_bytes(&self) -> Seq<u8> {
        seq![self.0, self.1]
    }

    fn cast_to(&self) -> u16 {
        let mut arr: [u8; 2] = [0u8; 2];
        arr[0] = self.0;
        arr[1] = self.1;
        let r = from_bytes(&arr);
        proof {
            assert(arr@ =~= seq![self.0, self.1]);
        }
        r
    }
}

impl FromBytesCastLazy<i16> for (u8, u8) {
    open spec fn src_bytes(&self) -> Seq<u8> {
        seq![self.0, self.1]
    }

    fn cast_to(&self) -> i16 {
        let mut arr: [u8; 2] = [0u8; 2];
        arr[0] = self.0;
        arr[1] = self.1;
        let r = from_bytes(&arr);
        proof {
            assert(arr@ =~= seq![self.0, self.1]);
        }
        r
    }
}

impl FromBytesCastLazy<u32> for (u8, u8, u8, u8) {
    open spec fn src_bytes(&self) -> Seq<u8> {
        seq![self.0, self.1, self.2, self.3]
    }

    fn cast_to(&self) -> u32 {
        let mut arr: [u8; 4] = [0u8; 4];
        arr[0] = self.0;
        arr[1] = self.1;
        arr[2] = self.2;
        arr[3] = self.3;
        let r = from_bytes(&arr);
        proof {
            assert(arr@ =~= seq![self.0, self.1, self.2, self.3]);
        }
        r
    }
}

impl FromBytesCastLazy<i32> for (u8, u8, u8, u8) {
    open spec fn src_bytes(&self) -> Seq<u8> {
        seq![self.0, self.1, self.2, self.3]
    }

    fn cast_to(&self) -> i32 {
        let mut arr: [u8; 4] = [0u8; 4];
        arr[0] = self.0;
        arr[1] = self.1;
        arr[2] = self.2;
        arr[3] = self.3;
        let r = from_bytes(&arr);
        proof {
            assert(arr@ =~= seq![self.0, self.1, self.2, self.3]);
        }
        r
    }
}

impl FromBytesCastLazy<u64> for (u8, u8, u8, u8, u8, u8, u8, u8) {
    open spec fn src_bytes(&self) -> Seq<u8> {
        seq![self.0, self.1, self.2, self.3, self.4, self.5, self.6, self.7]
    }

    fn cast_to(&self) -> u64 {
        let mut arr: [u8; 8] = [0u8; 8];
        arr[0] = self.0;
        arr[1] = self.1;
        arr[2] = self.2;
        arr[3] = self.3;
        arr[4] = self.4;
        arr[5] = self.5;
        arr[6] = self.6;
        arr[7] = self.7;
        let r = from_bytes(&arr);
        proof {
            assert(arr@ =~= seq![self.0, self.1, self.2, self.3, self.4, self.5, self.6, self.7]);
        }
        r
    }
}

impl FromBytesCastLazy<i64> for (u8, u8, u8, u8, u8, u8, u8, u8) {
    open spec fn src_bytes(&self) -> Seq<u8> {
        seq![self.0, self.1, self.2, self.3, self.4, self.5, self.6, self.7]
    }

    fn cast_to(&self) -> i64 {
        let mut arr: [u8; 8] = [0u8; 8];
        arr[0] = self.0;
        arr[1] = self.1;
        arr[2] = self.2;
        arr[3] = self.3;
        arr[4] = self.4;
        arr[5] = self.5;
        arr[6] = self.6;
        arr[7] = self.7;
        let r = from_bytes(&arr);
        proof {
            assert(arr@ =~= seq![self.0, self.1, self.2, self.3, self.4, self.5, self.6, self.7]);
        }
        r
    }
}

impl FromBytesCastLazy<u128> for (u8, u8, u8, u8, u8, u8, u8, u8, u8, u8, u8, u8, u8, u8, u8, u8) {
    open spec fn src_bytes(&self) -> Seq<u8> {
        seq![self.0, self.1, self.2, self.3, self.4, self.5, self.6, self.7, self.8, self.9, self.10, self.11, self.12, self.13, self.14, self.15]
    }

    fn cast_to(&self) -> u128 {
        let mut arr: [u8; 16] = [0u8; 16];
        arr[0] = self.0;
        arr[1] = self.1;
        arr[2] = self.2;
        arr[3] = self.3;
        arr[4] = self.4;
        arr[5] = self.5;
        arr[6] = self.6;
        arr[7] = self.7;
        arr[8] = self.8;
        arr[9] = self.9;
        arr[10] = self.10;
        arr[11] = self.11;
        arr[12] = self.12;
        arr[13] = self.13;
        arr[14] = self.14;
        arr[15] = self.15;
        let r = from_bytes(&arr);
        proof {
            assert(arr@ =~= seq![self.0, self.1, self.2, self.3, self.4, self.5, self.6, self.7, self.8, self.9, self.10, self.11, self.12, self.13, self.14, self.15]);
        }
        r
    }
}

impl FromBytesCastLazy<i128> for (u8, u8, u8, u8, u8, u8, u8, u8, u8, u8, u8, u8, u8, u8, u8, u8) {
    open spec fn src_bytes(&self) -> Seq<u8> {
        seq![self.0, self.1, self.2, self.3, self.4, self.5, self.6, self.7, self.8, self.9, self.10, self.11, self.12, self.13, self.14, self.15]
    }

    fn cast_to(&self) -> i128 {
        let mut arr: [u8; 16] = [0u8; 16];
        arr[0] = self.0;
        arr[1] = self.1;
        arr[2] = self.2;
        arr[3] = self.3;
        arr[4] = self.4;
        arr[5] = self.5;
        arr[6] = self.6;
        arr[7] = self.7;
        arr[8] = self.8;
        arr[9] = self.9;
        arr[10] = self.10;
        arr[11] = self.11;
        arr[12] = self.12;
        arr[13] = self.13;
        arr[14] = self.14;
        arr[15] = self.15;
        let r = from_bytes(&arr);
        proof {
            assert(arr@ =~= seq![self.0, self.1, self.2, self.3, self.4, self.5, self.6, self.7, self.8, self.9, self.10, self.11, self.12, self.13, self.14, self.15]);
        }
        r
    }
}

} // verus!
