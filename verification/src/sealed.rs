//! Keeps the types of list items to those named here.
//!
//! What is claimed of lists rests on each type of item having its own name for
//! their contents, so no other crate may add one.
use crate::vk::{
    BufferCopy, BufferImageCopy, BufferMemoryBarrier, ClearAttachment, ClearRect, ClearValue,
    ImageBlit, ImageCopy, ImageMemoryBarrier, ImageResolve, MemoryBarrier, Rect2D, Viewport,
};
use vstd::prelude::*;

verus! {

/// A type of item that a short list can hold.
pub trait Sealed {

}

impl Sealed for BufferCopy {

}

impl Sealed for BufferImageCopy {

}

impl Sealed for BufferMemoryBarrier {

}

impl Sealed for ClearAttachment {

}

impl Sealed for ClearRect {

}

impl Sealed for ClearValue {

}

impl Sealed for ImageBlit {

}

impl Sealed for ImageCopy {

}

impl Sealed for ImageMemoryBarrier {

}

impl Sealed for ImageResolve {

}

impl Sealed for MemoryBarrier {

}

impl Sealed for Rect2D {

}

impl Sealed for Viewport {

}

impl Sealed for u64 {

}

} // verus!
