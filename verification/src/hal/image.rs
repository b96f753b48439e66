//! Images: places in them, the parts they have, and how they are accessed.
use super::format::Aspects;
use std::ops::Range;
use vstd::prelude::*;

verus! {

/// A mip level.
pub type Level = u8;

/// An array layer.
pub type Layer = u16;

/// A texel position.
#[derive(Clone, Copy, Debug, PartialEq, Eq)]
pub struct Offset {
    pub x: i32,
    pub y: i32,
    pub z: i32,
}

/// A size in texels.
#[derive(Clone, Copy, Debug, PartialEq, Eq)]
pub struct Extent {
    pub width: u32,
    pub height: u32,
    pub depth: u32,
}

/// The ways in which memory of an image is accessed, as a mask in Vulkan's
/// numbering of access bits.
#[derive(Clone, Copy, Debug, PartialEq, Eq)]
pub struct Access {
    pub bits: u32,
}

/// How the texels of an image lie in memory.
#[derive(Clone, Copy, Debug, PartialEq, Eq)]
pub enum Layout {
    General,
    ColorAttachmentOptimal,
    DepthStencilAttachmentOptimal,
    DepthStencilReadOnlyOptimal,
    ShaderReadOnlyOptimal,
    TransferSrcOptimal,
    TransferDstOptimal,
    Undefined,
    Preinitialized,
    Present,
}

/// How texels are sampled when a blit changes the size.
#[derive(Clone, Copy, Debug, PartialEq, Eq)]
pub enum Filter {
    Nearest,
    Linear,
}

/// Array layers of one mip level.
#[derive(Debug, PartialEq, Eq)]
pub struct SubresourceLayers {
    pub aspects: Aspects,
    pub level: Level,
    pub layers: Range<Layer>,
}

impl Clone for SubresourceLayers {
    fn clone(&self) -> (copy: SubresourceLayers)
        ensures
            copy == *self,
    {
        SubresourceLayers {
            aspects: self.aspects,
            level: self.level,
            layers: self.layers.start..self.layers.end,
        }
    }
}

impl SubresourceLayers {
    /// The range of layers does not end before it starts.
    pub open spec fn wf(self) -> bool {
        self.layers.start <= self.layers.end
    }

    /// Whether the range of layers does not end before it starts.
    pub fn is_ordered(&self) -> (ordered: bool)
        ensures
            ordered == self.wf(),
    {
        self.layers.start <= self.layers.end
    }
}

/// Array layers of several mip levels.
#[derive(Debug, PartialEq, Eq)]
pub struct SubresourceRange {
    pub aspects: Aspects,
    pub levels: Range<Level>,
    pub layers: Range<Layer>,
}

impl Clone for SubresourceRange {
    fn clone(&self) -> (copy: SubresourceRange)
        ensures
            copy == *self,
    {
        SubresourceRange {
            aspects: self.aspects,
            levels: self.levels.start..self.levels.end,
            layers: self.layers.start..self.layers.end,
        }
    }
}

impl SubresourceRange {
    /// Neither range ends before it starts.
    pub open spec fn wf(self) -> bool {
        &&& self.levels.start <= self.levels.end
        &&& self.layers.start <= self.layers.end
    }

    /// Whether neither range ends before it starts.
    pub fn is_ordered(&self) -> (ordered: bool)
        ensures
            ordered == self.wf(),
    {
        self.levels.start <= self.levels.end && self.layers.start <= self.layers.end
    }
}

} // verus!
