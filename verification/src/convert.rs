//! Conversions between POD values and their bytes.
//!
//! Size conditions that the types already decide (a prefix no longer
//! than the value, an array exactly the value's size) are `requires`
//! clauses, discharged at every call site by the verifier; only the
//! length of a run-time slice is checked by a branch and reported as an
//! error value.

use crate::pod::{
    lemma_le_bytes_le_value, lemma_pod_bytes_injective, lemma_pod_bytes_len, pod_bytes, Pod,
};
use vstd::prelude::*;

verus! {

/// Round trip: a value read back from a POD value's own byte view is
/// that value.
///
/// Every reading function here returns the value whose byte view the
/// first `size_spec` bytes of its input are, and every writing function
/// hands out exactly the byte view: so rebuilding from a full view —
/// whole vector, exact array, or slice prefix — always lands on the
/// value the view was taken from.
pub proof fn lemma_view_round_trip<T: Pod>(v: T, r: T)
    requires
        pod_bytes(r) == pod_bytes(v).subrange(0, T::size_spec() as int),
    ensures
        r == v,
{
    lemma_pod_bytes_len(v);
    assert(pod_bytes(v).subrange(0, T::size_spec() as int) =~= pod_bytes(v));
    lemma_pod_bytes_injective(r, v);
}

/// The byte view of a POD value, as an owned vector of its `size_spec`
/// bytes.
///
/// The view is produced as a copy of the value's bytes: what it holds
/// is the view's one observable property.
pub fn byte_slice_from<T: Pod>(val: &T) -> (r: Vec<u8>)
    ensures
        r@ == pod_bytes(*val),
{
    val.pod_to_bytes()
}

/// The first `N` bytes of a POD value's byte view, copied into an owned
/// array.  `N` may not exceed the value's size: extracting a prefix is
/// allowed, inventing bytes is not.
pub fn bytes_from<T: Pod, const N: usize>(val: &T) -> (r: [u8; N])
    requires
        N <= T::size_spec(),
    ensures
        r@ == pod_bytes(*val).subrange(0, N as int),
{
    let bytes = val.pod_to_bytes();
    let mut r: [u8; N] = [0u8; N];
    let mut i: usize = 0;
    proof {
        broadcast use lemma_pod_bytes_len;

    }
    while i < N
        invariant
            i <= N <= T::size_spec(),
            bytes@ == pod_bytes(*val),
            bytes@.len() == T::size_spec(),
            r@.len() == N,
            forall|j: int| 0 <= j < i ==> r@[j] == bytes@[j],
        decreases N - i,
    {
        r[i] = bytes[i];
        i = i + 1;
    }
    proof {
        assert(r@ =~= pod_bytes(*val).subrange(0, N as int));
    }
    r
}

/// The first `N` bytes of a POD value's byte view.
///
/// The same operation as [`bytes_from`], under the name callers reach
/// it by as a free function.
pub fn to_bytes<T: Pod, const N: usize>(val: &T) -> (r: [u8; N])
    requires
        N <= T::size_spec(),
    ensures
        r@ == pod_bytes(*val).subrange(0, N as int),
{
    bytes_from(val)
}

/// The POD value whose byte view an array of exactly its size is.
pub fn from_bytes<T: Pod, const N: usize>(val: &[u8; N]) -> (r: T)
    requires
        N == T::size_spec(),
    ensures
        pod_bytes(r) == val@,
{
    let r = T::pod_from_bytes(val.as_slice());
    proof {
        lemma_le_bytes_le_value(val@);
    }
    r
}

/// The byte view of a POD value, as a freshly allocated vector.
pub fn bytes<T: Pod>(data: T) -> (r: Vec<u8>)
    ensures
        r@ == pod_bytes(data),
{
    data.pod_to_bytes()
}

/// Reads a POD value from the front of a byte slice.
///
/// Succeeds exactly when the slice holds at least the value's size in
/// bytes; the value read is the one whose byte view the slice's prefix
/// of that size is.  A shorter slice is reported, never padded.
pub fn bytes_cast<T: Pod>(bytes: &[u8]) -> (r: Result<T, ()>)
    ensures
        match r {
            Ok(v) => bytes@.len() >= T::size_spec() && pod_bytes(v) == bytes@.subrange(
                0,
                T::size_spec() as int,
            ),
            Err(_) => bytes@.len() < T::size_spec(),
        },
{
    let len = T::size_of();
    if bytes.len() < len {
        Err(())
    } else {
        let v = T::pod_from_bytes(&bytes[0..len]);
        proof {
            lemma_le_bytes_le_value(bytes@.subrange(0, T::size_spec() as int));
        }
        Ok(v)
    }
}

/// Reads a POD value from the front of a byte slice without the length
/// check, which the caller must have established.
///
/// No branch tests the length: the `requires` clause puts the burden on
/// the caller, and the verifier holds every call site to it.
pub fn bytes_cast_lazy<T: Pod>(bytes: &[u8]) -> (r: T)
    requires
        bytes@.len() >= T::size_spec(),
    ensures
        pod_bytes(r) == bytes@.subrange(0, T::size_spec() as int),
{
    let len = T::size_of();
    let v = T::pod_from_bytes(&bytes[0..len]);
    proof {
        lemma_le_bytes_le_value(bytes@.subrange(0, T::size_spec() as int));
    }
    v
}

/// Writes a POD value's byte view over the front of a mutable byte
/// slice without the length check, which the caller must have
/// established; bytes past the value's size are untouched.
pub fn copy_bytes_lazy<T: Pod>(data: T, to: &mut [u8])
    requires
        old(to)@.len() >= T::size_spec(),
    ensures
        final (to)@ == pod_bytes(data) + old(to)@.subrange(
            T::size_spec() as int,
            old(to)@.len() as int,
        ),
{
    let r = copy_bytes(data, to);
    proof {
        assert(r is Ok);
    }
}

/// Writes a POD value's byte view over the front of a mutable byte
/// slice.
///
/// Succeeds exactly when the slice holds at least the value's size in
/// bytes; bytes past the value's size are untouched.  A shorter slice is
/// reported and left unchanged.
pub fn copy_bytes<T: Pod>(data: T, to: &mut [u8]) -> (r: Result<(), ()>)
    ensures
        match r {
            Ok(_) => old(to)@.len() >= T::size_spec() && final(to)@ == pod_bytes(data) + old(
                to,
            )@.subrange(T::size_spec() as int, old(to)@.len() as int),
            Err(_) => old(to)@.len() < T::size_spec() && final(to)@ == old(to)@,
        },
{
    let len = T::size_of();
    if to.len() < len {
        Err(())
    } else {
        let bytes = data.pod_to_bytes();
        let mut i: usize = 0;
        proof {
            lemma_pod_bytes_len(data);
        }
        while i < len
            invariant
                i <= len == T::size_spec(),
                bytes@ == pod_bytes(data),
                bytes@.len() == len,
                to@.len() == old(to)@.len() >= len,
                forall|j: int| 0 <= j < i ==> to@[j] == bytes@[j],
                forall|j: int| i <= j < to@.len() ==> to@[j] == old(to)@[j],
            decreases len - i,
        {
            to[i] = bytes[i];
            i = i + 1;
        }
        proof {
            assert(to@ =~= pod_bytes(data) + old(to)@.subrange(
                T::size_spec() as int,
                old(to)@.len() as int,
            ));
        }
        Ok(())
    }
}

} // verus!
