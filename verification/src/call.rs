//! Calls into a Vulkan device, ready to be issued.
use crate::constants::{bytes_of, ByteOrder};
use crate::small::{Small16, Small4};
use crate::vk;
use vstd::prelude::*;

verus! {

/// One call of a device function on a command buffer, with all of its arguments.
///
/// Each variant is named after the function. `command_buffer` is the command
/// buffer that the call is for. The number of items in a list argument goes with
/// the list.
pub enum DeviceCall<'a> {
    BeginCommandBuffer { command_buffer: usize, info: vk::CommandBufferBeginInfo },
    EndCommandBuffer { command_buffer: usize },
    ResetCommandBuffer { command_buffer: usize, flags: u32 },
    BeginRenderPass {
        command_buffer: usize,
        info: vk::RenderPassBeginInfo,
        contents: vk::SubpassContents,
    },
    NextSubpass { command_buffer: usize, contents: vk::SubpassContents },
    EndRenderPass { command_buffer: usize },
    PipelineBarrier {
        command_buffer: usize,
        src_stage_mask: u32,
        dst_stage_mask: u32,
        dependency_flags: u32,
        memory_barriers: Small4<vk::MemoryBarrier>,
        buffer_memory_barriers: Small4<vk::BufferMemoryBarrier>,
        image_memory_barriers: Small4<vk::ImageMemoryBarrier>,
    },
    FillBuffer { command_buffer: usize, buffer: u64, offset: u64, size: u64, data: u32 },
    UpdateBuffer { command_buffer: usize, buffer: u64, offset: u64, data: &'a [u8] },
    ClearColorImage {
        command_buffer: usize,
        image: u64,
        image_layout: vk::ImageLayout,
        clear_value: vk::ClearColorValue,
        ranges: [vk::ImageSubresourceRange; 1],
    },
    ClearDepthStencilImage {
        command_buffer: usize,
        image: u64,
        image_layout: vk::ImageLayout,
        clear_value: vk::ClearDepthStencilValue,
        ranges: [vk::ImageSubresourceRange; 1],
    },
    ClearAttachments {
        command_buffer: usize,
        attachments: Small16<vk::ClearAttachment>,
        rects: Small16<vk::ClearRect>,
    },
    ResolveImage {
        command_buffer: usize,
        src_image: u64,
        src_image_layout: vk::ImageLayout,
        dst_image: u64,
        dst_image_layout: vk::ImageLayout,
        regions: Small4<vk::ImageResolve>,
    },
    BlitImage {
        command_buffer: usize,
        src_image: u64,
        src_image_layout: vk::ImageLayout,
        dst_image: u64,
        dst_image_layout: vk::ImageLayout,
        regions: Small4<vk::ImageBlit>,
        filter: vk::Filter,
    },
    BindIndexBuffer {
        command_buffer: usize,
        buffer: u64,
        offset: u64,
        index_type: vk::IndexType,
    },
    BindVertexBuffers {
        command_buffer: usize,
        first_binding: u32,
        buffers: Small16<u64>,
        offsets: Small16<u64>,
    },
    SetViewport { command_buffer: usize, first_viewport: u32, viewports: Small16<vk::Viewport> },
    SetScissor { command_buffer: usize, scissors: Small16<vk::Rect2D> },
    SetStencilReference { command_buffer: usize, face_mask: u32, reference: u32 },
    SetBlendConstants { command_buffer: usize, blend_constants: [u32; 4] },
    BindPipeline {
        command_buffer: usize,
        pipeline_bind_point: vk::PipelineBindPoint,
        pipeline: u64,
    },
    BindDescriptorSets {
        command_buffer: usize,
        pipeline_bind_point: vk::PipelineBindPoint,
        layout: u64,
        first_set: u32,
        descriptor_sets: Small16<u64>,
        dynamic_offsets: Vec<u32>,
    },
    Dispatch {
        command_buffer: usize,
        group_count_x: u32,
        group_count_y: u32,
        group_count_z: u32,
    },
    DispatchIndirect { command_buffer: usize, buffer: u64, offset: u64 },
    CopyBuffer {
        command_buffer: usize,
        src_buffer: u64,
        dst_buffer: u64,
        regions: Small16<vk::BufferCopy>,
    },
    CopyImage {
        command_buffer: usize,
        src_image: u64,
        src_image_layout: vk::ImageLayout,
        dst_image: u64,
        dst_image_layout: vk::ImageLayout,
        regions: Small16<vk::ImageCopy>,
    },
    CopyBufferToImage {
        command_buffer: usize,
        src_buffer: u64,
        dst_image: u64,
        dst_image_layout: vk::ImageLayout,
        regions: Small16<vk::BufferImageCopy>,
    },
    CopyImageToBuffer {
        command_buffer: usize,
        src_image: u64,
        src_image_layout: vk::ImageLayout,
        dst_buffer: u64,
        regions: Small16<vk::BufferImageCopy>,
    },
    Draw {
        command_buffer: usize,
        vertex_count: u32,
        instance_count: u32,
        first_vertex: u32,
        first_instance: u32,
    },
    DrawIndexed {
        command_buffer: usize,
        index_count: u32,
        instance_count: u32,
        first_index: u32,
        vertex_offset: i32,
        first_instance: u32,
    },
    DrawIndirect {
        command_buffer: usize,
        buffer: u64,
        offset: u64,
        draw_count: u32,
        stride: u32,
    },
    DrawIndexedIndirect {
        command_buffer: usize,
        buffer: u64,
        offset: u64,
        draw_count: u32,
        stride: u32,
    },
    BeginQuery { command_buffer: usize, query_pool: u64, query: u32, flags: u32 },
    EndQuery { command_buffer: usize, query_pool: u64, query: u32 },
    ResetQueryPool {
        command_buffer: usize,
        query_pool: u64,
        first_query: u32,
        query_count: u32,
    },
    WriteTimestamp {
        command_buffer: usize,
        pipeline_stage: u32,
        query_pool: u64,
        query: u32,
    },
    /// `values` holds the constants word by word; the device is handed their bytes
    /// in the order of the machine.
    PushConstants {
        command_buffer: usize,
        layout: u64,
        stage_flags: u32,
        offset: u32,
        values: &'a [u32],
    },
    ExecuteCommands { command_buffer: usize, command_buffers: Vec<usize> },
}

/// How a call came out.
#[derive(Clone, Copy, Debug, PartialEq, Eq)]
pub enum Settled {
    /// The call took effect.
    Recorded,
    /// The device reported this error on a call that may not fail.
    Failed(i32),
}

impl<'a> DeviceCall<'a> {
    /// The command buffer that the call is for.
    pub open spec fn target(self) -> usize {
        match self {
            DeviceCall::BeginCommandBuffer { command_buffer, .. } => command_buffer,
            DeviceCall::EndCommandBuffer { command_buffer, .. } => command_buffer,
            DeviceCall::ResetCommandBuffer { command_buffer, .. } => command_buffer,
            DeviceCall::BeginRenderPass { command_buffer, .. } => command_buffer,
            DeviceCall::NextSubpass { command_buffer, .. } => command_buffer,
            DeviceCall::EndRenderPass { command_buffer, .. } => command_buffer,
            DeviceCall::PipelineBarrier { command_buffer, .. } => command_buffer,
            DeviceCall::FillBuffer { command_buffer, .. } => command_buffer,
            DeviceCall::UpdateBuffer { command_buffer, .. } => command_buffer,
            DeviceCall::ClearColorImage { command_buffer, .. } => command_buffer,
            DeviceCall::ClearDepthStencilImage { command_buffer, .. } => command_buffer,
            DeviceCall::ClearAttachments { command_buffer, .. } => command_buffer,
            DeviceCall::ResolveImage { command_buffer, .. } => command_buffer,
            DeviceCall::BlitImage { command_buffer, .. } => command_buffer,
            DeviceCall::BindIndexBuffer { command_buffer, .. } => command_buffer,
            DeviceCall::BindVertexBuffers { command_buffer, .. } => command_buffer,
            DeviceCall::SetViewport { command_buffer, .. } => command_buffer,
            DeviceCall::SetScissor { command_buffer, .. } => command_buffer,
            DeviceCall::SetStencilReference { command_buffer, .. } => command_buffer,
            DeviceCall::SetBlendConstants { command_buffer, .. } => command_buffer,
            DeviceCall::BindPipeline { command_buffer, .. } => command_buffer,
            DeviceCall::BindDescriptorSets { command_buffer, .. } => command_buffer,
            DeviceCall::Dispatch { command_buffer, .. } => command_buffer,
            DeviceCall::DispatchIndirect { command_buffer, .. } => command_buffer,
            DeviceCall::CopyBuffer { command_buffer, .. } => command_buffer,
            DeviceCall::CopyImage { command_buffer, .. } => command_buffer,
            DeviceCall::CopyBufferToImage { command_buffer, .. } => command_buffer,
            DeviceCall::CopyImageToBuffer { command_buffer, .. } => command_buffer,
            DeviceCall::Draw { command_buffer, .. } => command_buffer,
            DeviceCall::DrawIndexed { command_buffer, .. } => command_buffer,
            DeviceCall::DrawIndirect { command_buffer, .. } => command_buffer,
            DeviceCall::DrawIndexedIndirect { command_buffer, .. } => command_buffer,
            DeviceCall::BeginQuery { command_buffer, .. } => command_buffer,
            DeviceCall::EndQuery { command_buffer, .. } => command_buffer,
            DeviceCall::ResetQueryPool { command_buffer, .. } => command_buffer,
            DeviceCall::WriteTimestamp { command_buffer, .. } => command_buffer,
            DeviceCall::PushConstants { command_buffer, .. } => command_buffer,
            DeviceCall::ExecuteCommands { command_buffer, .. } => command_buffer,
        }
    }

    /// The bytes that a call which pushes constants hands to the device, on a machine
    /// with this byte order.
    pub open spec fn pushed_bytes(self, order: ByteOrder) -> Seq<u8> {
        bytes_of(self->values@, order)
    }

    /// The device reports how the call went: it begins, ends or resets a command
    /// buffer. All other calls only record, and report nothing.
    pub open spec fn reports(self) -> bool {
        ||| self is BeginCommandBuffer
        ||| self is EndCommandBuffer
        ||| self is ResetCommandBuffer
    }

    /// The call records a command into this command buffer.
    pub open spec fn records_into(self, command_buffer: usize) -> bool {
        self.target() == command_buffer && !self.reports()
    }

    /// The call changes the state of this command buffer as a whole.
    pub open spec fn controls(self, command_buffer: usize) -> bool {
        self.target() == command_buffer && self.reports()
    }

    /// How the call comes out on a report of the device.
    pub open spec fn outcome(self, report: Result<(), i32>) -> Settled {
        match report {
            Err(code) if self.reports() => Settled::Failed(code),
            _ => Settled::Recorded,
        }
    }

    /// Decides from the device's report how the call came out. An error on a call
    /// that reports has no remedy: the caller cannot go on with the command buffer.
    pub fn settle(&self, report: Result<(), i32>) -> (settled: Settled)
        ensures
            settled == self.outcome(report),
    {
        match self {
            DeviceCall::BeginCommandBuffer { .. }
            | DeviceCall::EndCommandBuffer { .. }
            | DeviceCall::ResetCommandBuffer { .. } => match report {
                Ok(()) => Settled::Recorded,
                Err(code) => Settled::Failed(code),
            },
            _ => Settled::Recorded,
        }
    }
}

} // verus!
