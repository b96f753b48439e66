//! Vulkan objects that commands refer to, by their handles.
use vstd::prelude::*;

verus! {

/// A buffer.
#[derive(Clone, Copy, Debug, PartialEq, Eq)]
pub struct Buffer {
    pub raw: u64,
}

/// An image.
#[derive(Clone, Copy, Debug, PartialEq, Eq)]
pub struct Image {
    pub raw: u64,
}

/// A render pass.
#[derive(Clone, Copy, Debug, PartialEq, Eq)]
pub struct RenderPass {
    pub raw: u64,
}

/// A framebuffer.
#[derive(Clone, Copy, Debug, PartialEq, Eq)]
pub struct Framebuffer {
    pub raw: u64,
}

/// A pipeline layout.
#[derive(Clone, Copy, Debug, PartialEq, Eq)]
pub struct PipelineLayout {
    pub raw: u64,
}

/// A descriptor set.
#[derive(Clone, Copy, Debug, PartialEq, Eq)]
pub struct DescriptorSet {
    pub raw: u64,
}

/// A graphics pipeline.
#[derive(Clone, Copy, Debug, PartialEq, Eq)]
pub struct GraphicsPipeline(pub u64);

/// A compute pipeline.
#[derive(Clone, Copy, Debug, PartialEq, Eq)]
pub struct ComputePipeline(pub u64);

/// A query pool.
#[derive(Clone, Copy, Debug, PartialEq, Eq)]
pub struct QueryPool(pub u64);

} // verus!
