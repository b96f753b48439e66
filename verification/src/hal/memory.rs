//! Memory dependencies between commands.
use super::buffer;
use super::image;
use crate::native::{Buffer, Image};
use std::ops::Range;
use vstd::prelude::*;

verus! {

/// How far a dependency reaches, as a mask in Vulkan's numbering of dependency
/// bits.
#[derive(Clone, Copy, Debug, PartialEq, Eq)]
pub struct Dependencies {
    pub bits: u32,
}

/// A memory dependency. A range of accesses goes from those before the barrier to
/// those after it.
#[derive(Debug, PartialEq, Eq)]
pub enum Barrier {
    /// On the memory of all buffers.
    AllBuffers(Range<buffer::Access>),
    /// On the memory of all images.
    AllImages(Range<image::Access>),
    /// On one buffer, whole.
    Buffer { states: Range<buffer::Access>, target: Buffer },
    /// On part of one image, which may change its layout.
    Image {
        states: Range<(image::Access, image::Layout)>,
        target: Image,
        range: image::SubresourceRange,
    },
}

impl Clone for Barrier {
    fn clone(&self) -> (copy: Barrier)
        ensures
            copy == *self,
    {
        match self {
            Barrier::AllBuffers(access) => Barrier::AllBuffers(access.start..access.end),
            Barrier::AllImages(access) => Barrier::AllImages(access.start..access.end),
            Barrier::Buffer { states, target } => Barrier::Buffer {
                states: states.start..states.end,
                target: *target,
            },
            Barrier::Image { states, target, range } => Barrier::Image {
                states: states.start..states.end,
                target: *target,
                range: range.clone(),
            },
        }
    }
}

impl Barrier {
    /// The ranges of an image barrier do not end before they start.
    pub open spec fn wf(self) -> bool {
        self matches Barrier::Image { range, .. } ==> range.wf()
    }

    /// Whether the ranges of an image barrier do not end before they start.
    pub fn is_ordered(&self) -> (ordered: bool)
        ensures
            ordered == self.wf(),
    {
        match self {
            Barrier::Image { range, .. } => range.is_ordered(),
            _ => true,
        }
    }
}

} // verus!
