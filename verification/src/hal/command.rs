//! The arguments of commands.
use super::buffer;
use super::image;
use super::pso::{DepthValue, StencilValue};
use std::ops::Range;
use vstd::prelude::*;

verus! {

/// How a command buffer will be used, as a mask in Vulkan's numbering of usage
/// bits.
#[derive(Clone, Copy, Debug, PartialEq, Eq)]
pub struct CommandBufferFlags {
    pub bits: u32,
}

/// Where the commands of a subpass are recorded.
#[derive(Clone, Copy, Debug, PartialEq, Eq)]
pub enum SubpassContents {
    /// In the command buffer that holds the render pass.
    Inline,
    /// In secondary command buffers that it executes.
    SecondaryBuffers,
}

/// A clear colour by the type of its components. Components in floating point are
/// given by their bit patterns.
#[derive(Clone, Copy, Debug, PartialEq, Eq)]
pub enum ClearColor {
    Float([u32; 4]),
    Int([i32; 4]),
    Uint([u32; 4]),
}

/// Depth and stencil to clear to.
#[derive(Clone, Copy, Debug, PartialEq, Eq)]
pub struct ClearDepthStencil {
    pub depth: DepthValue,
    pub stencil: StencilValue,
}

/// A clear colour of untold component type: the four words of memory that hold
/// it.
#[derive(Clone, Copy, Debug, PartialEq, Eq)]
pub struct ClearColorRaw {
    pub words: [u32; 4],
}

/// Depth and stencil to clear to, as they lie in memory.
#[derive(Clone, Copy, Debug, PartialEq, Eq)]
pub struct ClearDepthStencilRaw {
    pub depth: DepthValue,
    pub stencil: StencilValue,
}

/// A clear value of an attachment of untold kind: the four words of memory that
/// hold it.
#[derive(Clone, Copy, Debug, PartialEq, Eq)]
pub struct ClearValueRaw {
    pub words: [u32; 4],
}

/// An attachment to clear inside a render pass.
#[derive(Clone, Copy, Debug, PartialEq, Eq)]
pub enum AttachmentClear {
    /// The colour attachment with this index.
    Color(usize, ClearColor),
    /// The depth aspect of the depth-stencil attachment.
    Depth(DepthValue),
    /// The stencil aspect of the depth-stencil attachment.
    Stencil(StencilValue),
    /// Both aspects of the depth-stencil attachment.
    DepthStencil(ClearDepthStencil),
}

/// Bytes to copy from one buffer to another.
#[derive(Clone, Copy, Debug, PartialEq, Eq)]
pub struct BufferCopy {
    pub src: buffer::Offset,
    pub dst: buffer::Offset,
    pub size: buffer::Offset,
}

/// Texels to copy from one image to another.
#[derive(Debug, PartialEq, Eq)]
pub struct ImageCopy {
    pub src_subresource: image::SubresourceLayers,
    pub src_offset: image::Offset,
    pub dst_subresource: image::SubresourceLayers,
    pub dst_offset: image::Offset,
    pub extent: image::Extent,
}

impl Clone for ImageCopy {
    fn clone(&self) -> (copy: ImageCopy)
        ensures
            copy == *self,
    {
        ImageCopy {
            src_subresource: self.src_subresource.clone(),
            src_offset: self.src_offset,
            dst_subresource: self.dst_subresource.clone(),
            dst_offset: self.dst_offset,
            extent: self.extent,
        }
    }
}

impl ImageCopy {
    /// Neither range of layers ends before it starts.
    pub open spec fn wf(self) -> bool {
        self.src_subresource.wf() && self.dst_subresource.wf()
    }

    /// Whether neither range of layers ends before it starts.
    pub fn is_ordered(&self) -> (ordered: bool)
        ensures
            ordered == self.wf(),
    {
        self.src_subresource.is_ordered() && self.dst_subresource.is_ordered()
    }
}

/// Texels of a multisampled image to resolve into another.
#[derive(Debug, PartialEq, Eq)]
pub struct ImageResolve {
    pub src_subresource: image::SubresourceLayers,
    pub src_offset: image::Offset,
    pub dst_subresource: image::SubresourceLayers,
    pub dst_offset: image::Offset,
    pub extent: image::Extent,
}

impl Clone for ImageResolve {
    fn clone(&self) -> (copy: ImageResolve)
        ensures
            copy == *self,
    {
        ImageResolve {
            src_subresource: self.src_subresource.clone(),
            src_offset: self.src_offset,
            dst_subresource: self.dst_subresource.clone(),
            dst_offset: self.dst_offset,
            extent: self.extent,
        }
    }
}

impl ImageResolve {
    /// Neither range of layers ends before it starts.
    pub open spec fn wf(self) -> bool {
        self.src_subresource.wf() && self.dst_subresource.wf()
    }

    /// Whether neither range of layers ends before it starts.
    pub fn is_ordered(&self) -> (ordered: bool)
        ensures
            ordered == self.wf(),
    {
        self.src_subresource.is_ordered() && self.dst_subresource.is_ordered()
    }
}

/// A box of texels to stretch into a box of another image. Bounds may run
/// backwards, which mirrors.
#[derive(Debug, PartialEq, Eq)]
pub struct ImageBlit {
    pub src_subresource: image::SubresourceLayers,
    pub src_bounds: Range<image::Offset>,
    pub dst_subresource: image::SubresourceLayers,
    pub dst_bounds: Range<image::Offset>,
}

impl Clone for ImageBlit {
    fn clone(&self) -> (copy: ImageBlit)
        ensures
            copy == *self,
    {
        ImageBlit {
            src_subresource: self.src_subresource.clone(),
            src_bounds: self.src_bounds.start..self.src_bounds.end,
            dst_subresource: self.dst_subresource.clone(),
            dst_bounds: self.dst_bounds.start..self.dst_bounds.end,
        }
    }
}

impl ImageBlit {
    /// Neither range of layers ends before it starts.
    pub open spec fn wf(self) -> bool {
        self.src_subresource.wf() && self.dst_subresource.wf()
    }

    /// Whether neither range of layers ends before it starts.
    pub fn is_ordered(&self) -> (ordered: bool)
        ensures
            ordered == self.wf(),
    {
        self.src_subresource.is_ordered() && self.dst_subresource.is_ordered()
    }
}

/// Texels to copy between a buffer and an image.
#[derive(Debug, PartialEq, Eq)]
pub struct BufferImageCopy {
    pub buffer_offset: buffer::Offset,
    pub buffer_width: u32,
    pub buffer_height: u32,
    pub image_layers: image::SubresourceLayers,
    pub image_offset: image::Offset,
    pub image_extent: image::Extent,
}

impl Clone for BufferImageCopy {
    fn clone(&self) -> (copy: BufferImageCopy)
        ensures
            copy == *self,
    {
        BufferImageCopy {
            buffer_offset: self.buffer_offset,
            buffer_width: self.buffer_width,
            buffer_height: self.buffer_height,
            image_layers: self.image_layers.clone(),
            image_offset: self.image_offset,
            image_extent: self.image_extent,
        }
    }
}

impl BufferImageCopy {
    /// The range of layers does not end before it starts.
    pub open spec fn wf(self) -> bool {
        self.image_layers.wf()
    }

    /// Whether the range of layers does not end before it starts.
    pub fn is_ordered(&self) -> (ordered: bool)
        ensures
            ordered == self.wf(),
    {
        self.image_layers.is_ordered()
    }
}

} // verus!
