//! Pipeline state: stages, rectangles, vertex buffers.
use crate::native::Buffer;
use std::ops::Range;
use vstd::prelude::*;

verus! {

/// A set of pipeline stages, as a mask in Vulkan's numbering of stage bits.
#[derive(Clone, Copy, Debug, PartialEq, Eq)]
pub struct PipelineStage {
    pub bits: u32,
}

/// A set of shader stages, as a mask in Vulkan's numbering of shader stage bits.
#[derive(Clone, Copy, Debug, PartialEq, Eq)]
pub struct ShaderStageFlags {
    pub bits: u32,
}

/// A stencil reference value.
pub type StencilValue = u32;

/// The bit pattern of a depth in floating point.
pub type DepthValue = u32;

/// The bit patterns of four colour components in floating point.
pub type ColorValue = [u32; 4];

/// A rectangle in a framebuffer.
#[derive(Clone, Copy, Debug, PartialEq, Eq)]
pub struct Rect {
    pub x: u16,
    pub y: u16,
    pub w: u16,
    pub h: u16,
}

/// A rectangle to draw into and the range of depths there.
#[derive(Debug, PartialEq, Eq)]
pub struct Viewport {
    pub rect: Rect,
    pub depth: Range<DepthValue>,
}

impl Clone for Viewport {
    fn clone(&self) -> (copy: Viewport)
        ensures
            copy == *self,
    {
        Viewport { rect: self.rect, depth: self.depth.start..self.depth.end }
    }
}

/// The vertex buffers of a draw: for each binding, from zero on, a buffer and the
/// byte in it at which its vertices start.
#[derive(Clone, Debug, PartialEq, Eq)]
pub struct VertexBufferSet(pub Vec<(Buffer, usize)>);

} // verus!
