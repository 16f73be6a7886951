//! Conversion between a POD value and the byte array of exactly its
//! size, in both directions, as generic traits over the array width.

use crate::pod::{lemma_pod_bytes_len, pod_bytes, Pod};
use vstd::prelude::*;

verus! {

/// Conversion of a value into the byte array of exactly its size.
pub trait IntoBytes<const N: usize>: Pod {
    /// The value's byte view, as an owned array.
    fn into_bytes(self) -> (r: [u8; N])
        ensures
            N == Self::size_spec(),
            r@ == pod_bytes(self),
    ;
}

/// Reconstruction of a value from the byte array of exactly its size.
pub trait FromBytes<const N: usize>: Pod {
    /// The value whose byte view `arr` is.
    fn from_bytes(arr: [u8; N]) -> (r: Self)
        ensures
            N == Self::size_spec(),
            pod_bytes(r) == arr@,
    ;
}

impl IntoBytes<1> for u8 {
    fn into_bytes(self) -> [u8; 1] {
        let r = crate::convert::bytes_from(&self);
        proof {
            lemma_pod_bytes_len(self);
            assert(pod_bytes(self).subrange(0, 1) =~= pod_bytes(self));
        }
        r
    }
}

impl FromBytes<1> for u8 {
    fn from_bytes(arr: [u8; 1]) -> u8 {
        crate::convert::from_bytes(&arr)
    }
}

impl IntoBytes<1> for i8 {
    fn into_bytes(self) -> [u8; 1] {
        let r = crate::convert::bytes_from(&self);
        proof {
            lemma_pod_bytes_len(self);
            assert(pod_bytes(self).subrange(0, 1) =~= pod_bytes(self));
        }
        r
    }
}

impl FromBytes<1> for i8 {
    fn from_bytes(arr: [u8; 1]) -> i8 {
        crate::convert::from_bytes(&arr)
    }
}

impl IntoBytes<2> for u16 {
    fn into_bytes(self) -> [u8; 2] {
        let r = crate::convert::bytes_from(&self);
        proof {
            lemma_pod_bytes_len(self);
            assert(pod_bytes(self).subrange(0, 2) =~= pod_bytes(self));
        }
        r
    }
}

impl FromBytes<2> for u16 {
    fn from_bytes(arr: [u8; 2]) -> u16 {
        crate::convert::from_bytes(&arr)
    }
}

impl IntoBytes<2> for i16 {
    fn into_bytes(self) -> [u8; 2] {
        let r = crate::convert::bytes_from(&self);
        proof {
            lemma_pod_bytes_len(self);
            assert(pod_bytes(self).subrange(0, 2) =~= pod_bytes(self));
        }
        r
    }
}

impl FromBytes<2> for i16 {
    fn from_bytes(arr: [u8; 2]) -> i16 {
        crate::convert::from_bytes(&arr)
    }
}

impl IntoBytes<4> for u32 {
    fn into_bytes(self) -> [u8; 4] {
        let r = crate::convert::bytes_from(&self);
        proof {
            lemma_pod_bytes_len(self);
            assert(pod_bytes(self).subrange(0, 4) =~= pod_bytes(self));
        }
        r
    }
}

impl FromBytes<4> for u32 {
    fn from_bytes(arr: [u8; 4]) -> u32 {
        crate::convert::from_bytes(&arr)
    }
}

impl IntoBytes<4> for i32 {
    fn into_bytes(self) -> [u8; 4] {
        let r = crate::convert::bytes_from(&self);
        proof {
            lemma_pod_bytes_len(self);
            assert(pod_bytes(self).subrange(0, 4) =~= pod_bytes(self));
        }
        r
    }
}

impl FromBytes<4> for i32 {
    fn from_bytes(arr: [u8; 4]) -> i32 {
        crate::convert::from_bytes(&arr)
    }
}

impl IntoBytes<8> for u64 {
    fn into_bytes(self) -> [u8; 8] {
        let r = crate::convert::bytes_from(&self);
        proof {
            lemma_pod_bytes_len(self);
            assert(pod_bytes(self).subrange(0, 8) =~= pod_bytes(self));
        }
        r
    }
}

impl FromBytes<8> for u64 {
    fn from_bytes(arr: [u8; 8]) -> u64 {
        crate::convert::from_bytes(&arr)
    }
}

impl IntoBytes<8> for i64 {
    fn into_bytes(self) -> [u8; 8] {
        let r = crate::convert::bytes_from(&self);
        proof {
            lemma_pod_bytes_len(self);
            assert(pod_bytes(self).subrange(0, 8) =~= pod_bytes(self));
        }
        r
    }
}

impl FromBytes<8> for i64 {
    fn from_bytes(arr: [u8; 8]) -> i64 {
        crate::convert::from_bytes(&arr)
    }
}

impl IntoBytes<16> for u128 {
    fn into_bytes(self) -> [u8; 16] {
        let r = crate::convert::bytes_from(&self);
        proof {
            lemma_pod_bytes_len(self);
            assert(pod_bytes(self).subrange(0, 16) =~= pod_bytes(self));
        }
        r
    }
}

impl FromBytes<16> for u128 {
    fn from_bytes(arr: [u8; 16]) -> u128 {
        crate::convert::from_bytes(&arr)
    }
}

impl IntoBytes<16> for i128 {
    fn into_bytes(self) -> [u8; 16] {
        let r = crate::convert::bytes_from(&self);
        proof {
            lemma_pod_bytes_len(self);
            assert(pod_bytes(self).subrange(0, 16) =~= pod_bytes(self));
        }
        r
    }
}

impl FromBytes<16> for i128 {
    fn from_bytes(arr: [u8; 16]) -> i128 {
        crate::convert::from_bytes(&arr)
    }
}

} // verus!
