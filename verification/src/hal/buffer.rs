//! Buffers: offsets, accesses and index views.
use crate::native::Buffer;
use vstd::prelude::*;

verus! {

/// A position in a buffer, in bytes.
pub type Offset = u64;

/// The ways in which memory of a buffer is accessed, as a mask in Vulkan's
/// numbering of access bits.
#[derive(Clone, Copy, Debug, PartialEq, Eq)]
pub struct Access {
    pub bits: u32,
}

/// The width of one index in an index buffer.
#[derive(Clone, Copy, Debug, PartialEq, Eq)]
pub enum IndexType {
    U16,
    U32,
}

/// An index buffer, from where in it the indices start and how wide they are.
#[derive(Clone, Copy, Debug, PartialEq, Eq)]
pub struct IndexBufferView {
    pub buffer: Buffer,
    pub offset: Offset,
    pub index_type: IndexType,
}

} // verus!
