//! Lazy utilities to work with bits and bytes, verified.
//!
//! Every value of a plain-old-data integer type has one byte-level
//! representation: the little-endian digits of its unsigned bit pattern.
//! The whole library is specified against that single model, found in
//! [`pod`].

pub mod array;
pub mod bits;
pub mod byte_index;
pub mod cast;
pub mod convert;
pub mod pod;
pub mod read;
pub mod slice;

pub use array::FromBytes;
pub use array::IntoBytes;
pub use bits::BitInt;
pub use bits::Bits;
pub use byte_index::ByteIndex;
pub use byte_index::ByteSlice;
pub use cast::FromBytesCast;
pub use cast::FromBytesCastLazy;
pub use cast::ToBytesCast;
pub use convert::byte_slice_from;
pub use convert::bytes;
pub use convert::bytes_cast;
pub use convert::bytes_cast_lazy;
pub use convert::bytes_from;
pub use convert::copy_bytes;
pub use convert::copy_bytes_lazy;
pub use convert::from_bytes;
pub use convert::to_bytes;
pub use pod::Pod;
pub use read::Read;
pub use slice::AsBytes;
pub use slice::ReadBytes;
