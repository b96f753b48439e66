//! The command buffer and the commands that can be recorded into it.
use crate::barrier;
use crate::call::DeviceCall;
use crate::clear;
use crate::constants::{bytes_of, ByteOrder};
use crate::conv;
use crate::hal::format::Aspects;
use crate::hal::image::{Filter, Layout, SubresourceRange};
use crate::hal::{buffer, command as com, memory, pso, query};
use crate::laws;
use crate::native as n;
use crate::regions;
use crate::small::{self, Small16};
use crate::vk;
use std::ops::Range;
use vstd::prelude::*;

verus! {

/// A number of work groups, by dimension.
pub type WorkGroupCount = [u32; 3];

/// A vertex, or a number of vertices.
pub type VertexCount = u32;

/// What is added to each index to find its vertex.
pub type VertexOffset = i32;

/// A place in the index buffer, or a number of indices.
pub type IndexCount = u32;

/// An instance, or a number of instances.
pub type InstanceCount = u32;

/// A command buffer, by its handle.
///
/// Each method tells which device calls carry a command out; they are for this
/// command buffer, and take effect when they are issued in the order given.
#[derive(Clone, Copy, Debug, PartialEq, Eq)]
pub struct CommandBuffer {
    pub raw: usize,
}

/// The subpass contents of the same kind.
pub open spec fn subpass_contents(contents: com::SubpassContents) -> vk::SubpassContents {
    match contents {
        com::SubpassContents::Inline => vk::SubpassContents::Inline,
        com::SubpassContents::SecondaryBuffers => vk::SubpassContents::SecondaryCommandBuffers,
    }
}

/// Gives the subpass contents of the same kind.
pub fn map_subpass_contents(contents: com::SubpassContents) -> (mapped: vk::SubpassContents)
    ensures
        mapped == subpass_contents(contents),
{
    match contents {
        com::SubpassContents::Inline => vk::SubpassContents::Inline,
        com::SubpassContents::SecondaryBuffers => vk::SubpassContents::SecondaryCommandBuffers,
    }
}

/// The handles of descriptor sets.
pub open spec fn set_handles(sets: Seq<n::DescriptorSet>) -> Seq<u64> {
    sets.map_values(|set: n::DescriptorSet| set.raw)
}

/// The handles of vertex buffers.
pub open spec fn vertex_buffer_handles(vbs: pso::VertexBufferSet) -> Seq<u64> {
    vbs.0@.map_values(|vb: (n::Buffer, usize)| vb.0.raw)
}

/// The bytes at which vertices start in their buffers.
pub open spec fn vertex_buffer_offsets(vbs: pso::VertexBufferSet) -> Seq<u64> {
    vbs.0@.map_values(|vb: (n::Buffer, usize)| vb.1 as u64)
}

/// The viewports, one by one.
pub open spec fn viewport_list(viewports: Seq<pso::Viewport>) -> Seq<vk::Viewport> {
    viewports.map_values(|viewport: pso::Viewport| conv::viewport(viewport))
}

/// The rectangles, one by one.
pub open spec fn scissor_rects(rects: Seq<pso::Rect>) -> Seq<vk::Rect2D> {
    rects.map_values(|rect: pso::Rect| conv::rect(rect))
}

/// The handles of command buffers.
pub open spec fn command_buffer_handles(buffers: Seq<CommandBuffer>) -> Seq<usize> {
    buffers.map_values(|buffer: CommandBuffer| buffer.raw)
}

/// The calls that set the stencil references of front and back faces.
pub open spec fn stencil_calls(
    raw: usize,
    front: pso::StencilValue,
    back: pso::StencilValue,
) -> Seq<DeviceCall<'static>> {
    if front == back {
        seq![
            DeviceCall::SetStencilReference {
                command_buffer: raw,
                face_mask: vk::STENCIL_FRONT_AND_BACK,
                reference: front,
            },
        ]
    } else {
        seq![
            DeviceCall::SetStencilReference {
                command_buffer: raw,
                face_mask: vk::STENCIL_FACE_FRONT,
                reference: front,
            },
            DeviceCall::SetStencilReference {
                command_buffer: raw,
                face_mask: vk::STENCIL_FACE_BACK,
                reference: back,
            },
        ]
    }
}

/// The call that sets constants of shader stages, from the word `offset` on.
pub open spec fn push_constants_call<'a>(
    raw: usize,
    layout: n::PipelineLayout,
    stages: pso::ShaderStageFlags,
    offset: u32,
    constants: &'a [u32],
) -> DeviceCall<'a> {
    DeviceCall::PushConstants {
        command_buffer: raw,
        layout: layout.raw,
        stage_flags: stages.bits,
        offset: (offset * 4) as u32,
        values: constants,
    }
}

/// The call binds `sets`, from the binding `first_set` on, with no dynamic
/// offsets. The binding is taken modulo two to the power of 32.
pub open spec fn binds_descriptor_sets(
    call: DeviceCall,
    command_buffer: CommandBuffer,
    bind_point: vk::PipelineBindPoint,
    layout: n::PipelineLayout,
    first_set: usize,
    sets: Seq<n::DescriptorSet>,
) -> bool {
    &&& call is BindDescriptorSets
    &&& call->BindDescriptorSets_command_buffer == command_buffer.raw
    &&& call->BindDescriptorSets_pipeline_bind_point == bind_point
    &&& call->BindDescriptorSets_layout == layout.raw
    &&& call->first_set == first_set as u32
    &&& call->descriptor_sets@ == set_handles(sets)
    &&& call->dynamic_offsets@ == Seq::<u32>::empty()
}

/// The call copies the texels of `regions` from a buffer to an image.
pub open spec fn copies_buffer_to_image(
    call: DeviceCall,
    command_buffer: CommandBuffer,
    src: n::Buffer,
    dst: n::Image,
    dst_layout: Layout,
    regions: Seq<com::BufferImageCopy>,
) -> bool {
    &&& call is CopyBufferToImage
    &&& call->CopyBufferToImage_command_buffer == command_buffer.raw
    &&& call->CopyBufferToImage_src_buffer == src.raw
    &&& call->CopyBufferToImage_dst_image == dst.raw
    &&& call->CopyBufferToImage_dst_image_layout == conv::image_layout(dst_layout)
    &&& call->CopyBufferToImage_regions@ == regions::buffer_image_copies(regions)
}

/// The call copies the texels of `regions` from an image to a buffer.
pub open spec fn copies_image_to_buffer(
    call: DeviceCall,
    command_buffer: CommandBuffer,
    src: n::Image,
    src_layout: Layout,
    dst: n::Buffer,
    regions: Seq<com::BufferImageCopy>,
) -> bool {
    &&& call is CopyImageToBuffer
    &&& call->CopyImageToBuffer_command_buffer == command_buffer.raw
    &&& call->CopyImageToBuffer_src_image == src.raw
    &&& call->CopyImageToBuffer_src_image_layout == conv::image_layout(src_layout)
    &&& call->CopyImageToBuffer_dst_buffer == dst.raw
    &&& call->CopyImageToBuffer_regions@ == regions::buffer_image_copies(regions)
}

impl CommandBuffer {
    /// Binds descriptor sets for one kind of pipeline.
    fn bind_descriptor_sets(
        &self,
        bind_point: vk::PipelineBindPoint,
        layout: &n::PipelineLayout,
        first_set: usize,
        sets: &[n::DescriptorSet],
    ) -> (call: DeviceCall<'static>)
        ensures
            binds_descriptor_sets(call, *self, bind_point, *layout, first_set, sets@),
    {
        let mut descriptor_sets: Small16<u64> = small::no_handles();
        let mut i: usize = 0;
        while i < sets.len()
            invariant
                i <= sets@.len(),
                descriptor_sets@ == set_handles(sets@.take(i as int)),
            decreases sets@.len() - i,
        {
            descriptor_sets.push(sets[i].raw);
            assert(sets@.take(i + 1) =~= sets@.take(i as int).push(sets@[i as int]));
            i = i + 1;
        }
        assert(sets@.take(i as int) =~= sets@);
        DeviceCall::BindDescriptorSets {
            command_buffer: self.raw,
            pipeline_bind_point: bind_point,
            layout: layout.raw,
            first_set: first_set as u32,
            descriptor_sets,
            dynamic_offsets: Vec::new(),
        }
    }

    /// Begins recording. The command buffer inherits no state.
    pub fn begin(&self, flags: com::CommandBufferFlags) -> (call: DeviceCall<'static>)
        ensures
            call.controls(self.raw),
            call == (DeviceCall::BeginCommandBuffer {
                command_buffer: self.raw,
                info: vk::CommandBufferBeginInfo {
                    s_type: vk::StructureType::CommandBufferBeginInfo,
                    flags: flags.bits,
                },
            }),
    {
        let info = vk::CommandBufferBeginInfo {
            s_type: vk::StructureType::CommandBufferBeginInfo,
            flags: flags.bits,
        };
        DeviceCall::BeginCommandBuffer { command_buffer: self.raw, info }
    }

    /// Ends recording.
    pub fn finish(&self) -> (call: DeviceCall<'static>)
        ensures
            call.controls(self.raw),
            call == (DeviceCall::EndCommandBuffer { command_buffer: self.raw }),
    {
        DeviceCall::EndCommandBuffer { command_buffer: self.raw }
    }

    /// Forgets what was recorded. With `release_resources` the memory goes back to
    /// the pool.
    pub fn reset(&self, release_resources: bool) -> (call: DeviceCall<'static>)
        ensures
            call.controls(self.raw),
            call == (DeviceCall::ResetCommandBuffer {
                command_buffer: self.raw,
                flags: if release_resources {
                    vk::COMMAND_BUFFER_RESET_RELEASE_RESOURCES
                } else {
                    0
                },
            }),
    {
        let flags: u32 = if release_resources {
            vk::command_buffer_reset_release_resources()
        } else {
            0
        };
        DeviceCall::ResetCommandBuffer { command_buffer: self.raw, flags }
    }

    /// Begins a render pass, and with it its first subpass. The number of clear
    /// values is taken modulo two to the power of 32.
    pub fn begin_render_pass_raw(
        &self,
        render_pass: &n::RenderPass,
        frame_buffer: &n::Framebuffer,
        render_area: pso::Rect,
        clear_values: &[com::ClearValueRaw],
        first_subpass: com::SubpassContents,
    ) -> (call: DeviceCall<'static>)
        ensures
            call.records_into(self.raw),
            (call matches DeviceCall::BeginRenderPass { command_buffer, info, contents } && {
                &&& command_buffer == self.raw
                &&& info.s_type == vk::StructureType::RenderPassBeginInfo
                &&& info.render_pass == render_pass.raw
                &&& info.framebuffer == frame_buffer.raw
                &&& info.render_area == conv::rect(render_area)
                &&& info.clear_value_count == clear_values@.len() as u32
                &&& info.clear_values@ == clear::clear_values(clear_values@)
                &&& clear_values@.len() <= u32::MAX ==> info.clear_value_count
                    == info.clear_values@.len()
                &&& contents == subpass_contents(first_subpass)
            }),
    {
        let render_area = conv::map_rect(&render_area);
        let values = clear::map_clear_values(clear_values);
        let info = vk::RenderPassBeginInfo {
            s_type: vk::StructureType::RenderPassBeginInfo,
            render_pass: render_pass.raw,
            framebuffer: frame_buffer.raw,
            render_area,
            clear_value_count: values.items().len() as u32,
            clear_values: values,
        };
        let contents = map_subpass_contents(first_subpass);
        DeviceCall::BeginRenderPass { command_buffer: self.raw, info, contents }
    }

    /// Goes on to the next subpass.
    pub fn next_subpass(&self, contents: com::SubpassContents) -> (call: DeviceCall<'static>)
        ensures
            call.records_into(self.raw),
            call == (DeviceCall::NextSubpass {
                command_buffer: self.raw,
                contents: subpass_contents(contents),
            }),
    {
        let contents = map_subpass_contents(contents);
        DeviceCall::NextSubpass { command_buffer: self.raw, contents }
    }

    /// Ends the render pass.
    pub fn end_render_pass(&self) -> (call: DeviceCall<'static>)
        ensures
            call.records_into(self.raw),
            call == (DeviceCall::EndRenderPass { command_buffer: self.raw }),
    {
        DeviceCall::EndRenderPass { command_buffer: self.raw }
    }

    /// Makes commands in the stages `stages.end` wait for those in `stages.start`,
    /// and makes memory visible between them as `barriers` say. The barriers are
    /// sorted by what they are on; those on the same kind of thing keep their order,
    /// so that each stands behind as many as came before it on that kind of thing.
    pub fn pipeline_barrier(
        &self,
        stages: Range<pso::PipelineStage>,
        dependencies: memory::Dependencies,
        barriers: &[memory::Barrier],
    ) -> (call: DeviceCall<'static>)
        requires
            forall|i: int| 0 <= i < barriers@.len() ==> (#[trigger] barriers@[i]).wf(),
        ensures
            call.records_into(self.raw),
            (call matches DeviceCall::PipelineBarrier {
                command_buffer,
                src_stage_mask,
                dst_stage_mask,
                dependency_flags,
                memory_barriers,
                buffer_memory_barriers,
                image_memory_barriers,
            } && {
                &&& command_buffer == self.raw
                &&& src_stage_mask == stages.start.bits
                &&& dst_stage_mask == stages.end.bits
                &&& dependency_flags == dependencies.bits
                &&& memory_barriers@ == barrier::global_barriers(barriers@)
                &&& buffer_memory_barriers@ == barrier::buffer_barriers(barriers@)
                &&& image_memory_barriers@ == barrier::image_barriers(barriers@)
                &&& memory_barriers@.len() == barriers@.filter(
                    |b: memory::Barrier| b is AllBuffers || b is AllImages,
                ).len()
                &&& buffer_memory_barriers@.len() == barriers@.filter(
                    |b: memory::Barrier| b is Buffer,
                ).len()
                &&& image_memory_barriers@.len() == barriers@.filter(
                    |b: memory::Barrier| b is Image,
                ).len()
                &&& forall|i: int|
                    0 <= i < barriers@.len() && (#[trigger] barriers@[i]) is AllBuffers ==> {
                        let place = barriers@.take(i).filter(
                            |b: memory::Barrier| b is AllBuffers || b is AllImages,
                        ).len();
                        let mapped = memory_barriers@[place as int];
                        &&& place < memory_barriers@.len()
                        &&& mapped.s_type is MemoryBarrier
                        &&& mapped.src_access_mask == barriers@[i]->AllBuffers_0.start.bits
                        &&& mapped.dst_access_mask == barriers@[i]->AllBuffers_0.end.bits
                    }
                &&& forall|i: int|
                    0 <= i < barriers@.len() && (#[trigger] barriers@[i]) is AllImages ==> {
                        let place = barriers@.take(i).filter(
                            |b: memory::Barrier| b is AllBuffers || b is AllImages,
                        ).len();
                        let mapped = memory_barriers@[place as int];
                        &&& place < memory_barriers@.len()
                        &&& mapped.s_type is MemoryBarrier
                        &&& mapped.src_access_mask == barriers@[i]->AllImages_0.start.bits
                        &&& mapped.dst_access_mask == barriers@[i]->AllImages_0.end.bits
                    }
                &&& forall|i: int|
                    0 <= i < barriers@.len() && (#[trigger] barriers@[i]) is Buffer ==> {
                        let place = barriers@.take(i).filter(
                            |b: memory::Barrier| b is Buffer,
                        ).len();
                        let mapped = buffer_memory_barriers@[place as int];
                        &&& place < buffer_memory_barriers@.len()
                        &&& mapped.s_type is BufferMemoryBarrier
                        &&& mapped.src_access_mask == barriers@[i]->Buffer_states.start.bits
                        &&& mapped.dst_access_mask == barriers@[i]->Buffer_states.end.bits
                        &&& mapped.src_queue_family_index == 0xffff_ffff
                        &&& mapped.dst_queue_family_index == 0xffff_ffff
                        &&& mapped.buffer == barriers@[i]->Buffer_target.raw
                        &&& mapped.offset == 0
                        &&& mapped.size == 0xffff_ffff_ffff_ffff
                    }
                &&& forall|i: int|
                    0 <= i < barriers@.len() && (#[trigger] barriers@[i]) is Image ==> {
                        let place = barriers@.take(i).filter(
                            |b: memory::Barrier| b is Image,
                        ).len();
                        let mapped = image_memory_barriers@[place as int];
                        let range = mapped.subresource_range;
                        let asked = barriers@[i]->range;
                        &&& place < image_memory_barriers@.len()
                        &&& mapped.s_type is ImageMemoryBarrier
                        &&& mapped.src_access_mask == barriers@[i]->Image_states.start.0.bits
                        &&& mapped.dst_access_mask == barriers@[i]->Image_states.end.0.bits
                        &&& mapped.old_layout == (match barriers@[i]->Image_states.start.1 {
                            Layout::General => vk::ImageLayout::General,
                            Layout::ColorAttachmentOptimal =>
                                vk::ImageLayout::ColorAttachmentOptimal,
                            Layout::DepthStencilAttachmentOptimal =>
                                vk::ImageLayout::DepthStencilAttachmentOptimal,
                            Layout::DepthStencilReadOnlyOptimal =>
                                vk::ImageLayout::DepthStencilReadOnlyOptimal,
                            Layout::ShaderReadOnlyOptimal => vk::ImageLayout::ShaderReadOnlyOptimal,
                            Layout::TransferSrcOptimal => vk::ImageLayout::TransferSrcOptimal,
                            Layout::TransferDstOptimal => vk::ImageLayout::TransferDstOptimal,
                            Layout::Undefined => vk::ImageLayout::Undefined,
                            Layout::Preinitialized => vk::ImageLayout::Preinitialized,
                            Layout::Present => vk::ImageLayout::PresentSrcKhr,
                        })
                        &&& mapped.new_layout == (match barriers@[i]->Image_states.end.1 {
                            Layout::General => vk::ImageLayout::General,
                            Layout::ColorAttachmentOptimal =>
                                vk::ImageLayout::ColorAttachmentOptimal,
                            Layout::DepthStencilAttachmentOptimal =>
                                vk::ImageLayout::DepthStencilAttachmentOptimal,
                            Layout::DepthStencilReadOnlyOptimal =>
                                vk::ImageLayout::DepthStencilReadOnlyOptimal,
                            Layout::ShaderReadOnlyOptimal => vk::ImageLayout::ShaderReadOnlyOptimal,
                            Layout::TransferSrcOptimal => vk::ImageLayout::TransferSrcOptimal,
                            Layout::TransferDstOptimal => vk::ImageLayout::TransferDstOptimal,
                            Layout::Undefined => vk::ImageLayout::Undefined,
                            Layout::Preinitialized => vk::ImageLayout::Preinitialized,
                            Layout::Present => vk::ImageLayout::PresentSrcKhr,
                        })
                        &&& mapped.src_queue_family_index == 0xffff_ffff
                        &&& mapped.dst_queue_family_index == 0xffff_ffff
                        &&& mapped.image == barriers@[i]->Image_target.raw
                        &&& range.base_mip_level == asked.levels.start
                        &&& range.base_mip_level + range.level_count == asked.levels.end
                        &&& range.base_array_layer == asked.layers.start
                        &&& range.base_array_layer + range.layer_count == asked.layers.end
                        &&& range.aspect_mask == (if asked.aspects.color {
                            1int
                        } else {
                            0
                        }) + (if asked.aspects.depth {
                            2int
                        } else {
                            0
                        }) + (if asked.aspects.stencil {
                            4int
                        } else {
                            0
                        })
                    }
            }),
    {
        let sorted = barrier::sort_barriers(barriers);
        proof {
            laws::barriers::lemma_all_places(barriers@);
            laws::barriers::law_as_many_of_each_kind(barriers@);
            laws::values::lemma_all_aspect_masks();
        }
        DeviceCall::PipelineBarrier {
            command_buffer: self.raw,
            src_stage_mask: stages.start.bits,
            dst_stage_mask: stages.end.bits,
            dependency_flags: dependencies.bits,
            memory_barriers: sorted.global,
            buffer_memory_barriers: sorted.buffers,
            image_memory_barriers: sorted.images,
        }
    }

    /// Fills a range of a buffer with copies of a word.
    pub fn fill_buffer(
        &self,
        buffer: &n::Buffer,
        range: Range<buffer::Offset>,
        data: u32,
    ) -> (call: DeviceCall<'static>)
        requires
            range.start <= range.end,
        ensures
            call.records_into(self.raw),
            call == (DeviceCall::FillBuffer {
                command_buffer: self.raw,
                buffer: buffer.raw,
                offset: range.start,
                size: (range.end - range.start) as u64,
                data,
            }),
            call->FillBuffer_offset + call->FillBuffer_size == range.end,
    {
        DeviceCall::FillBuffer {
            command_buffer: self.raw,
            buffer: buffer.raw,
            offset: range.start,
            size: range.end - range.start,
            data,
        }
    }

    /// Writes bytes into a buffer.
    pub fn update_buffer<'a>(
        &self,
        buffer: &n::Buffer,
        offset: buffer::Offset,
        data: &'a [u8],
    ) -> (call: DeviceCall<'a>)
        ensures
            call.records_into(self.raw),
            call == (DeviceCall::UpdateBuffer {
                command_buffer: self.raw,
                buffer: buffer.raw,
                offset,
                data,
            }),
    {
        DeviceCall::UpdateBuffer { command_buffer: self.raw, buffer: buffer.raw, offset, data }
    }

    /// Clears part of a colour image.
    pub fn clear_color_image_raw(
        &self,
        image: &n::Image,
        layout: Layout,
        range: SubresourceRange,
        value: com::ClearColorRaw,
    ) -> (call: DeviceCall<'static>)
        requires
            Aspects::spec_color().spec_contains(range.aspects),
            range.wf(),
        ensures
            call.records_into(self.raw),
            call == (DeviceCall::ClearColorImage {
                command_buffer: self.raw,
                image: image.raw,
                image_layout: conv::image_layout(layout),
                clear_value: vk::ClearColorValue { words: value.words },
                ranges: [conv::subresource_range(range)],
            }),
    {
        let range = conv::map_subresource_range(&range);
        let clear_value = vk::ClearColorValue { words: value.words };
        DeviceCall::ClearColorImage {
            command_buffer: self.raw,
            image: image.raw,
            image_layout: conv::map_image_layout(layout),
            clear_value,
            ranges: [range],
        }
    }

    /// Clears part of a depth-stencil image.
    pub fn clear_depth_stencil_image_raw(
        &self,
        image: &n::Image,
        layout: Layout,
        range: SubresourceRange,
        value: com::ClearDepthStencilRaw,
    ) -> (call: DeviceCall<'static>)
        requires
            Aspects::spec_depth_stencil().spec_contains(range.aspects),
            range.wf(),
        ensures
            call.records_into(self.raw),
            call == (DeviceCall::ClearDepthStencilImage {
                command_buffer: self.raw,
                image: image.raw,
                image_layout: conv::image_layout(layout),
                clear_value: vk::ClearDepthStencilValue {
                    depth: value.depth,
                    stencil: value.stencil,
                },
                ranges: [conv::subresource_range(range)],
            }),
    {
        let range = conv::map_subresource_range(&range);
        let clear_value = vk::ClearDepthStencilValue {
            depth: value.depth,
            stencil: value.stencil,
        };
        DeviceCall::ClearDepthStencilImage {
            command_buffer: self.raw,
            image: image.raw,
            image_layout: conv::map_image_layout(layout),
            clear_value,
            ranges: [range],
        }
    }

    /// Clears attachments of the render pass inside rectangles.
    pub fn clear_attachments(
        &self,
        clears: &[com::AttachmentClear],
        rects: &[pso::Rect],
    ) -> (call: DeviceCall<'static>)
        ensures
            call.records_into(self.raw),
            (call matches DeviceCall::ClearAttachments {
                command_buffer,
                attachments,
                rects: clear_rects,
            } && {
                &&& command_buffer == self.raw
                &&& attachments@ == clear::clear_attachments(clears@)
                &&& clear_rects@ == clear::clear_rects(rects@)
                &&& attachments@.len() == clears@.len()
                &&& clear_rects@.len() == rects@.len()
                &&& forall|i: int, k: int|
                    0 <= i < clears@.len() && 0 <= k < 4 ==> ((#[trigger] clears@[i]) matches
                        com::AttachmentClear::Color(_, color) ==> {
                        &&& attachments@[i].clear_value is Color
                        &&& #[trigger] attachments@[i].clear_value->Color_0.words[k]
                            == (match color {
                            com::ClearColor::Float(v) => v[k] as int,
                            com::ClearColor::Uint(v) => v[k] as int,
                            com::ClearColor::Int(v) => if v[k] >= 0 {
                                v[k] as int
                            } else {
                                v[k] + 0x1_0000_0000
                            },
                        })
                    })
            }),
    {
        proof {
            laws::values::lemma_all_color_words();
        }
        DeviceCall::ClearAttachments {
            command_buffer: self.raw,
            attachments: clear::map_clear_attachments(clears),
            rects: clear::map_clear_rects(rects),
        }
    }

    /// Resolves regions of a multisampled image into another image.
    pub fn resolve_image(
        &self,
        src: &n::Image,
        src_layout: Layout,
        dst: &n::Image,
        dst_layout: Layout,
        regions: &[com::ImageResolve],
    ) -> (call: DeviceCall<'static>)
        requires
            forall|i: int| 0 <= i < regions@.len() ==> (#[trigger] regions@[i]).wf(),
        ensures
            call.records_into(self.raw),
            (call matches DeviceCall::ResolveImage {
                command_buffer,
                src_image,
                src_image_layout,
                dst_image,
                dst_image_layout,
                regions: mapped,
            } && {
                &&& command_buffer == self.raw
                &&& src_image == src.raw
                &&& src_image_layout == conv::image_layout(src_layout)
                &&& dst_image == dst.raw
                &&& dst_image_layout == conv::image_layout(dst_layout)
                &&& mapped@ == regions::image_resolves(regions@)
            }),
    {
        DeviceCall::ResolveImage {
            command_buffer: self.raw,
            src_image: src.raw,
            src_image_layout: conv::map_image_layout(src_layout),
            dst_image: dst.raw,
            dst_image_layout: conv::map_image_layout(dst_layout),
            regions: regions::map_image_resolves(regions),
        }
    }

    /// Stretches regions of an image into another image.
    pub fn blit_image(
        &self,
        src: &n::Image,
        src_layout: Layout,
        dst: &n::Image,
        dst_layout: Layout,
        filter: Filter,
        regions: &[com::ImageBlit],
    ) -> (call: DeviceCall<'static>)
        requires
            forall|i: int| 0 <= i < regions@.len() ==> (#[trigger] regions@[i]).wf(),
        ensures
            call.records_into(self.raw),
            (call matches DeviceCall::BlitImage {
                command_buffer,
                src_image,
                src_image_layout,
                dst_image,
                dst_image_layout,
                regions: mapped,
                filter: mapped_filter,
            } && {
                &&& command_buffer == self.raw
                &&& src_image == src.raw
                &&& src_image_layout == conv::image_layout(src_layout)
                &&& dst_image == dst.raw
                &&& dst_image_layout == conv::image_layout(dst_layout)
                &&& mapped@ == regions::image_blits(regions@)
                &&& mapped@.len() == regions@.len()
                &&& forall|i: int|
                    0 <= i < regions@.len() ==> {
                        &&& (#[trigger] mapped@[i]).src_offsets[0].x
                            == regions@[i].src_bounds.start.x
                        &&& mapped@[i].src_offsets[0].y == regions@[i].src_bounds.start.y
                        &&& mapped@[i].src_offsets[0].z == regions@[i].src_bounds.start.z
                        &&& mapped@[i].src_offsets[1].x == regions@[i].src_bounds.end.x
                        &&& mapped@[i].src_offsets[1].y == regions@[i].src_bounds.end.y
                        &&& mapped@[i].src_offsets[1].z == regions@[i].src_bounds.end.z
                        &&& mapped@[i].dst_offsets[0].x == regions@[i].dst_bounds.start.x
                        &&& mapped@[i].dst_offsets[0].y == regions@[i].dst_bounds.start.y
                        &&& mapped@[i].dst_offsets[0].z == regions@[i].dst_bounds.start.z
                        &&& mapped@[i].dst_offsets[1].x == regions@[i].dst_bounds.end.x
                        &&& mapped@[i].dst_offsets[1].y == regions@[i].dst_bounds.end.y
                        &&& mapped@[i].dst_offsets[1].z == regions@[i].dst_bounds.end.z
                    }
                &&& mapped_filter == conv::filter(filter)
            }),
    {
        DeviceCall::BlitImage {
            command_buffer: self.raw,
            src_image: src.raw,
            src_image_layout: conv::map_image_layout(src_layout),
            dst_image: dst.raw,
            dst_image_layout: conv::map_image_layout(dst_layout),
            regions: regions::map_image_blits(regions),
            filter: conv::map_filter(filter),
        }
    }

    /// Binds an index buffer.
    pub fn bind_index_buffer(&self, ibv: buffer::IndexBufferView) -> (call: DeviceCall<'static>)
        ensures
            call.records_into(self.raw),
            call == (DeviceCall::BindIndexBuffer {
                command_buffer: self.raw,
                buffer: ibv.buffer.raw,
                offset: ibv.offset,
                index_type: conv::index_type(ibv.index_type),
            }),
    {
        DeviceCall::BindIndexBuffer {
            command_buffer: self.raw,
            buffer: ibv.buffer.raw,
            offset: ibv.offset,
            index_type: conv::map_index_type(ibv.index_type),
        }
    }

    /// Binds vertex buffers, from the first binding on.
    pub fn bind_vertex_buffers(&self, vbs: pso::VertexBufferSet) -> (call: DeviceCall<'static>)
        ensures
            call.records_into(self.raw),
            (call matches DeviceCall::BindVertexBuffers {
                command_buffer,
                first_binding,
                buffers,
                offsets,
            } && {
                &&& command_buffer == self.raw
                &&& first_binding == 0
                &&& buffers@ == vertex_buffer_handles(vbs)
                &&& offsets@ == vertex_buffer_offsets(vbs)
                &&& buffers@.len() == offsets@.len()
                &&& buffers@.len() == vbs.0@.len()
                &&& forall|i: int|
                    0 <= i < vbs.0@.len() ==> #[trigger] buffers@[i] == vbs.0@[i].0.raw
                &&& forall|i: int| 0 <= i < vbs.0@.len() ==> #[trigger] offsets@[i] == vbs.0@[i].1
            }),
    {
        let mut buffers: Small16<u64> = small::no_handles();
        let mut offsets: Small16<u64> = small::no_handles();
        let ghost bound = vbs.0@;
        let mut i: usize = 0;
        while i < vbs.0.len()
            invariant
                bound == vbs.0@,
                i <= bound.len(),
                buffers@ == bound.take(i as int).map_values(|vb: (n::Buffer, usize)| vb.0.raw),
                offsets@ == bound.take(i as int).map_values(|vb: (n::Buffer, usize)| vb.1 as u64),
            decreases bound.len() - i,
        {
            buffers.push(vbs.0[i].0.raw);
            offsets.push(vbs.0[i].1 as u64);
            assert(bound.take(i + 1) =~= bound.take(i as int).push(bound[i as int]));
            i = i + 1;
        }
        assert(bound.take(i as int) =~= bound);
        DeviceCall::BindVertexBuffers {
            command_buffer: self.raw,
            first_binding: 0,
            buffers,
            offsets,
        }
    }

    /// Sets viewports, from the first on.
    pub fn set_viewports(&self, viewports: &[pso::Viewport]) -> (call: DeviceCall<'static>)
        ensures
            call.records_into(self.raw),
            (call matches DeviceCall::SetViewport {
                command_buffer,
                first_viewport,
                viewports: set,
            } && {
                &&& command_buffer == self.raw
                &&& first_viewport == 0
                &&& set@ == viewport_list(viewports@)
                &&& set@.len() == viewports@.len()
                &&& forall|i: int|
                    0 <= i < viewports@.len() ==> {
                        &&& (#[trigger] set@[i]).x == viewports@[i].rect.x
                        &&& set@[i].y == viewports@[i].rect.y
                        &&& set@[i].width == viewports@[i].rect.w
                        &&& set@[i].height == viewports@[i].rect.h
                        &&& set@[i].min_depth == viewports@[i].depth.start
                        &&& set@[i].max_depth == viewports@[i].depth.end
                    }
            }),
    {
        let mut set: Small16<vk::Viewport> = small::no_viewports();
        let mut i: usize = 0;
        while i < viewports.len()
            invariant
                i <= viewports@.len(),
                set@ == viewport_list(viewports@.take(i as int)),
            decreases viewports@.len() - i,
        {
            set.push(conv::map_viewport(&viewports[i]));
            assert(viewports@.take(i + 1) =~= viewports@.take(i as int).push(viewports@[i as int]));
            i = i + 1;
        }
        assert(viewports@.take(i as int) =~= viewports@);
        DeviceCall::SetViewport { command_buffer: self.raw, first_viewport: 0, viewports: set }
    }

    /// Sets scissor rectangles, from the first on.
    pub fn set_scissors(&self, scissors: &[pso::Rect]) -> (call: DeviceCall<'static>)
        ensures
            call.records_into(self.raw),
            (call matches DeviceCall::SetScissor { command_buffer, scissors: set } && {
                &&& command_buffer == self.raw
                &&& set@ == scissor_rects(scissors@)
                &&& set@.len() == scissors@.len()
                &&& forall|i: int|
                    0 <= i < scissors@.len() ==> {
                        &&& (#[trigger] set@[i]).offset.x == scissors@[i].x
                        &&& set@[i].offset.y == scissors@[i].y
                        &&& set@[i].extent.width == scissors@[i].w
                        &&& set@[i].extent.height == scissors@[i].h
                    }
            }),
    {
        let mut set: Small16<vk::Rect2D> = small::no_rects();
        let mut i: usize = 0;
        while i < scissors.len()
            invariant
                i <= scissors@.len(),
                set@ == scissor_rects(scissors@.take(i as int)),
            decreases scissors@.len() - i,
        {
            set.push(conv::map_rect(&scissors[i]));
            assert(scissors@.take(i + 1) =~= scissors@.take(i as int).push(scissors@[i as int]));
            i = i + 1;
        }
        assert(scissors@.take(i as int) =~= scissors@);
        DeviceCall::SetScissor { command_buffer: self.raw, scissors: set }
    }

    /// Sets the stencil references of front and back faces: in one call where they
    /// are the same, else in one call for each.
    pub fn set_stencil_reference(
        &self,
        front: pso::StencilValue,
        back: pso::StencilValue,
    ) -> (calls: Vec<DeviceCall<'static>>)
        ensures
            calls@ == stencil_calls(self.raw, front, back),
            forall|i: int| 0 <= i < calls@.len() ==> (#[trigger] calls@[i]).records_into(self.raw),
    {
        let mut calls: Vec<DeviceCall<'static>> = Vec::new();
        if front == back {
            calls.push(
                DeviceCall::SetStencilReference {
                    command_buffer: self.raw,
                    face_mask: vk::stencil_front_and_back(),
                    reference: front,
                },
            );
        } else {
            calls.push(
                DeviceCall::SetStencilReference {
                    command_buffer: self.raw,
                    face_mask: vk::stencil_face_front(),
                    reference: front,
                },
            );
            calls.push(
                DeviceCall::SetStencilReference {
                    command_buffer: self.raw,
                    face_mask: vk::stencil_face_back(),
                    reference: back,
                },
            );
        }
        calls
    }

    /// Sets the blend constants.
    pub fn set_blend_constants(&self, color: pso::ColorValue) -> (call: DeviceCall<'static>)
        ensures
            call.records_into(self.raw),
            call == (DeviceCall::SetBlendConstants {
                command_buffer: self.raw,
                blend_constants: color,
            }),
    {
        DeviceCall::SetBlendConstants { command_buffer: self.raw, blend_constants: color }
    }

    /// Binds a graphics pipeline.
    pub fn bind_graphics_pipeline(
        &self,
        pipeline: &n::GraphicsPipeline,
    ) -> (call: DeviceCall<'static>)
        ensures
            call.records_into(self.raw),
            call == (DeviceCall::BindPipeline {
                command_buffer: self.raw,
                pipeline_bind_point: vk::PipelineBindPoint::Graphics,
                pipeline: pipeline.0,
            }),
    {
        DeviceCall::BindPipeline {
            command_buffer: self.raw,
            pipeline_bind_point: vk::PipelineBindPoint::Graphics,
            pipeline: pipeline.0,
        }
    }

    /// Binds descriptor sets for graphics pipelines.
    pub fn bind_graphics_descriptor_sets(
        &self,
        layout: &n::PipelineLayout,
        first_set: usize,
        sets: &[n::DescriptorSet],
    ) -> (call: DeviceCall<'static>)
        ensures
            call.records_into(self.raw),
            binds_descriptor_sets(
                call,
                *self,
                vk::PipelineBindPoint::Graphics,
                *layout,
                first_set,
                sets@,
            ),            call->BindDescriptorSets_pipeline_bind_point is Graphics,
            call->descriptor_sets@.len() == sets@.len(),
            forall|i: int|
                0 <= i < sets@.len() ==> #[trigger] call->descriptor_sets@[i] == sets@[i].raw,
    {
        self.bind_descriptor_sets(vk::PipelineBindPoint::Graphics, layout, first_set, sets)
    }

    /// Binds a compute pipeline.
    pub fn bind_compute_pipeline(
        &self,
        pipeline: &n::ComputePipeline,
    ) -> (call: DeviceCall<'static>)
        ensures
            call.records_into(self.raw),
            call == (DeviceCall::BindPipeline {
                command_buffer: self.raw,
                pipeline_bind_point: vk::PipelineBindPoint::Compute,
                pipeline: pipeline.0,
            }),
    {
        DeviceCall::BindPipeline {
            command_buffer: self.raw,
            pipeline_bind_point: vk::PipelineBindPoint::Compute,
            pipeline: pipeline.0,
        }
    }

    /// Binds descriptor sets for compute pipelines.
    pub fn bind_compute_descriptor_sets(
        &self,
        layout: &n::PipelineLayout,
        first_set: usize,
        sets: &[n::DescriptorSet],
    ) -> (call: DeviceCall<'static>)
        ensures
            call.records_into(self.raw),
            binds_descriptor_sets(
                call,
                *self,
                vk::PipelineBindPoint::Compute,
                *layout,
                first_set,
                sets@,
            ),            call->BindDescriptorSets_pipeline_bind_point is Compute,
            call->descriptor_sets@.len() == sets@.len(),
            forall|i: int|
                0 <= i < sets@.len() ==> #[trigger] call->descriptor_sets@[i] == sets@[i].raw,
    {
        self.bind_descriptor_sets(vk::PipelineBindPoint::Compute, layout, first_set, sets)
    }

    /// Runs the compute pipeline on work groups.
    pub fn dispatch(&self, count: WorkGroupCount) -> (call: DeviceCall<'static>)
        ensures
            call.records_into(self.raw),
            call == (DeviceCall::Dispatch {
                command_buffer: self.raw,
                group_count_x: count[0],
                group_count_y: count[1],
                group_count_z: count[2],
            }),
    {
        DeviceCall::Dispatch {
            command_buffer: self.raw,
            group_count_x: count[0],
            group_count_y: count[1],
            group_count_z: count[2],
        }
    }

    /// Runs the compute pipeline on as many work groups as a buffer says.
    pub fn dispatch_indirect(
        &self,
        buffer: &n::Buffer,
        offset: buffer::Offset,
    ) -> (call: DeviceCall<'static>)
        ensures
            call.records_into(self.raw),
            call == (DeviceCall::DispatchIndirect {
                command_buffer: self.raw,
                buffer: buffer.raw,
                offset,
            }),
    {
        DeviceCall::DispatchIndirect { command_buffer: self.raw, buffer: buffer.raw, offset }
    }

    /// Copies regions of a buffer to another.
    pub fn copy_buffer(
        &self,
        src: &n::Buffer,
        dst: &n::Buffer,
        regions: &[com::BufferCopy],
    ) -> (call: DeviceCall<'static>)
        ensures
            call.records_into(self.raw),
            (call matches DeviceCall::CopyBuffer {
                command_buffer,
                src_buffer,
                dst_buffer,
                regions: mapped,
            } && {
                &&& command_buffer == self.raw
                &&& src_buffer == src.raw
                &&& dst_buffer == dst.raw
                &&& mapped@ == regions::buffer_copies(regions@)
                &&& mapped@.len() == regions@.len()
                &&& forall|i: int|
                    0 <= i < regions@.len() ==> {
                        &&& (#[trigger] mapped@[i]).src_offset == regions@[i].src
                        &&& mapped@[i].dst_offset == regions@[i].dst
                        &&& mapped@[i].size == regions@[i].size
                    }
            }),
    {
        DeviceCall::CopyBuffer {
            command_buffer: self.raw,
            src_buffer: src.raw,
            dst_buffer: dst.raw,
            regions: regions::map_buffer_copies(regions),
        }
    }

    /// Copies regions of an image to another.
    pub fn copy_image(
        &self,
        src: &n::Image,
        src_layout: Layout,
        dst: &n::Image,
        dst_layout: Layout,
        regions: &[com::ImageCopy],
    ) -> (call: DeviceCall<'static>)
        requires
            forall|i: int| 0 <= i < regions@.len() ==> (#[trigger] regions@[i]).wf(),
        ensures
            call.records_into(self.raw),
            (call matches DeviceCall::CopyImage {
                command_buffer,
                src_image,
                src_image_layout,
                dst_image,
                dst_image_layout,
                regions: mapped,
            } && {
                &&& command_buffer == self.raw
                &&& src_image == src.raw
                &&& src_image_layout == conv::image_layout(src_layout)
                &&& dst_image == dst.raw
                &&& dst_image_layout == conv::image_layout(dst_layout)
                &&& mapped@ == regions::image_copies(regions@)
            }),
    {
        DeviceCall::CopyImage {
            command_buffer: self.raw,
            src_image: src.raw,
            src_image_layout: conv::map_image_layout(src_layout),
            dst_image: dst.raw,
            dst_image_layout: conv::map_image_layout(dst_layout),
            regions: regions::map_image_copies(regions),
        }
    }

    /// Copies texels from a buffer to an image.
    pub fn copy_buffer_to_image(
        &self,
        src: &n::Buffer,
        dst: &n::Image,
        dst_layout: Layout,
        regions: &[com::BufferImageCopy],
    ) -> (call: DeviceCall<'static>)
        requires
            forall|i: int| 0 <= i < regions@.len() ==> (#[trigger] regions@[i]).wf(),
        ensures
            call.records_into(self.raw),
            copies_buffer_to_image(call, *self, *src, *dst, dst_layout, regions@),
            call->CopyBufferToImage_regions@.len() == regions@.len(),
            forall|i: int|
                0 <= i < regions@.len() ==> {
                    &&& (#[trigger] call->CopyBufferToImage_regions@[i]).image_subresource.aspect_mask
                        & 0x1 == (
                    if regions@[i].image_layers.aspects.color {
                        0x1u32
                    } else {
                        0u32
                    })
                    &&& call->CopyBufferToImage_regions@[i].image_subresource.aspect_mask & 0x2 == (
                    if regions@[i].image_layers.aspects.depth {
                        0x2u32
                    } else {
                        0u32
                    })
                    &&& call->CopyBufferToImage_regions@[i].image_subresource.aspect_mask & 0x4 == (
                    if regions@[i].image_layers.aspects.stencil {
                        0x4u32
                    } else {
                        0u32
                    })
                    &&& call->CopyBufferToImage_regions@[i].image_subresource.aspect_mask <= 0x7
                },
    {
        let regions = regions::map_buffer_image_regions(dst, regions);
        DeviceCall::CopyBufferToImage {
            command_buffer: self.raw,
            src_buffer: src.raw,
            dst_image: dst.raw,
            dst_image_layout: conv::map_image_layout(dst_layout),
            regions,
        }
    }

    /// Copies texels from an image to a buffer.
    pub fn copy_image_to_buffer(
        &self,
        src: &n::Image,
        src_layout: Layout,
        dst: &n::Buffer,
        regions: &[com::BufferImageCopy],
    ) -> (call: DeviceCall<'static>)
        requires
            forall|i: int| 0 <= i < regions@.len() ==> (#[trigger] regions@[i]).wf(),
        ensures
            call.records_into(self.raw),
            copies_image_to_buffer(call, *self, *src, src_layout, *dst, regions@),
            call->CopyImageToBuffer_regions@.len() == regions@.len(),
            forall|i: int|
                0 <= i < regions@.len() ==> {
                    &&& (#[trigger] call->CopyImageToBuffer_regions@[i]).image_subresource.aspect_mask
                        & 0x1 == (
                    if regions@[i].image_layers.aspects.color {
                        0x1u32
                    } else {
                        0u32
                    })
                    &&& call->CopyImageToBuffer_regions@[i].image_subresource.aspect_mask & 0x2 == (
                    if regions@[i].image_layers.aspects.depth {
                        0x2u32
                    } else {
                        0u32
                    })
                    &&& call->CopyImageToBuffer_regions@[i].image_subresource.aspect_mask & 0x4 == (
                    if regions@[i].image_layers.aspects.stencil {
                        0x4u32
                    } else {
                        0u32
                    })
                    &&& call->CopyImageToBuffer_regions@[i].image_subresource.aspect_mask <= 0x7
                },
    {
        let regions = regions::map_buffer_image_regions(src, regions);
        DeviceCall::CopyImageToBuffer {
            command_buffer: self.raw,
            src_image: src.raw,
            src_image_layout: conv::map_image_layout(src_layout),
            dst_buffer: dst.raw,
            regions,
        }
    }

    /// Draws ranges of vertices and instances.
    pub fn draw(
        &self,
        vertices: Range<VertexCount>,
        instances: Range<InstanceCount>,
    ) -> (call: DeviceCall<'static>)
        requires
            vertices.start <= vertices.end,
            instances.start <= instances.end,
        ensures
            call.records_into(self.raw),
            call == (DeviceCall::Draw {
                command_buffer: self.raw,
                vertex_count: (vertices.end - vertices.start) as u32,
                instance_count: (instances.end - instances.start) as u32,
                first_vertex: vertices.start,
                first_instance: instances.start,
            }),
            call->first_vertex + call->vertex_count == vertices.end,
            call->Draw_first_instance + call->Draw_instance_count == instances.end,
    {
        DeviceCall::Draw {
            command_buffer: self.raw,
            vertex_count: vertices.end - vertices.start,
            instance_count: instances.end - instances.start,
            first_vertex: vertices.start,
            first_instance: instances.start,
        }
    }

    /// Draws a range of indices, for a range of instances.
    pub fn draw_indexed(
        &self,
        indices: Range<IndexCount>,
        base_vertex: VertexOffset,
        instances: Range<InstanceCount>,
    ) -> (call: DeviceCall<'static>)
        requires
            indices.start <= indices.end,
            instances.start <= instances.end,
        ensures
            call.records_into(self.raw),
            call == (DeviceCall::DrawIndexed {
                command_buffer: self.raw,
                index_count: (indices.end - indices.start) as u32,
                instance_count: (instances.end - instances.start) as u32,
                first_index: indices.start,
                vertex_offset: base_vertex,
                first_instance: instances.start,
            }),
            call->first_index + call->index_count == indices.end,
            call->DrawIndexed_first_instance + call->DrawIndexed_instance_count == instances.end,
    {
        DeviceCall::DrawIndexed {
            command_buffer: self.raw,
            index_count: indices.end - indices.start,
            instance_count: instances.end - instances.start,
            first_index: indices.start,
            vertex_offset: base_vertex,
            first_instance: instances.start,
        }
    }

    /// Draws as a buffer says.
    pub fn draw_indirect(
        &self,
        buffer: &n::Buffer,
        offset: buffer::Offset,
        draw_count: u32,
        stride: u32,
    ) -> (call: DeviceCall<'static>)
        ensures
            call.records_into(self.raw),
            call == (DeviceCall::DrawIndirect {
                command_buffer: self.raw,
                buffer: buffer.raw,
                offset,
                draw_count,
                stride,
            }),
    {
        DeviceCall::DrawIndirect {
            command_buffer: self.raw,
            buffer: buffer.raw,
            offset,
            draw_count,
            stride,
        }
    }

    /// Draws with indices, as a buffer says.
    pub fn draw_indexed_indirect(
        &self,
        buffer: &n::Buffer,
        offset: buffer::Offset,
        draw_count: u32,
        stride: u32,
    ) -> (call: DeviceCall<'static>)
        ensures
            call.records_into(self.raw),
            call == (DeviceCall::DrawIndexedIndirect {
                command_buffer: self.raw,
                buffer: buffer.raw,
                offset,
                draw_count,
                stride,
            }),
    {
        DeviceCall::DrawIndexedIndirect {
            command_buffer: self.raw,
            buffer: buffer.raw,
            offset,
            draw_count,
            stride,
        }
    }

    /// Begins a query.
    pub fn begin_query(
        &self,
        query: query::Query,
        control: query::QueryControl,
    ) -> (call: DeviceCall<'static>)
        ensures
            call.records_into(self.raw),
            call == (DeviceCall::BeginQuery {
                command_buffer: self.raw,
                query_pool: query.pool.0,
                query: query.id,
                flags: if control.precise {
                    vk::QUERY_CONTROL_PRECISE
                } else {
                    0
                },
            }),
    {
        let mut flags: u32 = 0;
        if control.precise {
            let precise: u32 = vk::query_control_precise();
            assert(0u32 | precise == precise) by (bit_vector);
            flags = flags | precise;
        }
        DeviceCall::BeginQuery {
            command_buffer: self.raw,
            query_pool: query.pool.0,
            query: query.id,
            flags,
        }
    }

    /// Ends a query.
    pub fn end_query(&self, query: query::Query) -> (call: DeviceCall<'static>)
        ensures
            call.records_into(self.raw),
            call == (DeviceCall::EndQuery {
                command_buffer: self.raw,
                query_pool: query.pool.0,
                query: query.id,
            }),
    {
        DeviceCall::EndQuery {
            command_buffer: self.raw,
            query_pool: query.pool.0,
            query: query.id,
        }
    }

    /// Makes a range of queries ready to be used again.
    pub fn reset_query_pool(
        &self,
        pool: &n::QueryPool,
        queries: Range<query::QueryId>,
    ) -> (call: DeviceCall<'static>)
        requires
            queries.start <= queries.end,
        ensures
            call.records_into(self.raw),
            call == (DeviceCall::ResetQueryPool {
                command_buffer: self.raw,
                query_pool: pool.0,
                first_query: queries.start,
                query_count: (queries.end - queries.start) as u32,
            }),
            call->first_query + call->query_count == queries.end,
    {
        DeviceCall::ResetQueryPool {
            command_buffer: self.raw,
            query_pool: pool.0,
            first_query: queries.start,
            query_count: queries.end - queries.start,
        }
    }

    /// Writes the time at which a stage is done with the commands before.
    pub fn write_timestamp(
        &self,
        stage: pso::PipelineStage,
        query: query::Query,
    ) -> (call: DeviceCall<'static>)
        ensures
            call.records_into(self.raw),
            call == (DeviceCall::WriteTimestamp {
                command_buffer: self.raw,
                pipeline_stage: stage.bits,
                query_pool: query.pool.0,
                query: query.id,
            }),
    {
        DeviceCall::WriteTimestamp {
            command_buffer: self.raw,
            pipeline_stage: stage.bits,
            query_pool: query.pool.0,
            query: query.id,
        }
    }

    /// Sets constants of the compute stage, from the word `offset` on. The device is
    /// handed them as the bytes that they are in memory.
    pub fn push_compute_constants<'a>(
        &self,
        layout: &n::PipelineLayout,
        offset: u32,
        constants: &'a [u32],
    ) -> (call: DeviceCall<'a>)
        requires
            offset * 4 <= u32::MAX,
        ensures
            call.records_into(self.raw),
            call == push_constants_call(
                self.raw,
                *layout,
                (pso::ShaderStageFlags { bits: vk::SHADER_STAGE_COMPUTE }),
                offset,
                constants,
            ),
            call->PushConstants_offset == offset * 4,
            call->stage_flags == 0x20,
            forall|order: ByteOrder| #[trigger]
                call.pushed_bytes(order) == bytes_of(constants@, order),
    {
        DeviceCall::PushConstants {
            command_buffer: self.raw,
            layout: layout.raw,
            stage_flags: vk::shader_stage_compute(),
            offset: offset * 4,
            values: constants,
        }
    }

    /// Sets constants of shader stages, from the word `offset` on. The device is
    /// handed them as the bytes that they are in memory.
    pub fn push_graphics_constants<'a>(
        &self,
        layout: &n::PipelineLayout,
        stages: pso::ShaderStageFlags,
        offset: u32,
        constants: &'a [u32],
    ) -> (call: DeviceCall<'a>)
        requires
            offset * 4 <= u32::MAX,
        ensures
            call.records_into(self.raw),
            call == push_constants_call(self.raw, *layout, stages, offset, constants),
            call->PushConstants_offset == offset * 4,
            forall|order: ByteOrder| #[trigger]
                call.pushed_bytes(order) == bytes_of(constants@, order),
    {
        DeviceCall::PushConstants {
            command_buffer: self.raw,
            layout: layout.raw,
            stage_flags: stages.bits,
            offset: offset * 4,
            values: constants,
        }
    }

    /// Executes secondary command buffers, in their order.
    pub fn execute_commands(&self, buffers: &[CommandBuffer]) -> (call: DeviceCall<'static>)
        ensures
            call.records_into(self.raw),
            (call matches DeviceCall::ExecuteCommands { command_buffer, command_buffers } && {
                &&& command_buffer == self.raw
                &&& command_buffers@ == command_buffer_handles(buffers@)
                &&& command_buffers@.len() == buffers@.len()
                &&& forall|i: int|
                    0 <= i < buffers@.len() ==> #[trigger] command_buffers@[i] == buffers@[i].raw
            }),
    {
        let mut command_buffers: Vec<usize> = Vec::new();
        let mut i: usize = 0;
        while i < buffers.len()
            invariant
                i <= buffers@.len(),
                command_buffers@ == command_buffer_handles(buffers@.take(i as int)),
            decreases buffers@.len() - i,
        {
            command_buffers.push(buffers[i].raw);
            assert(buffers@.take(i + 1) =~= buffers@.take(i as int).push(buffers@[i as int]));
            i = i + 1;
        }
        assert(buffers@.take(i as int) =~= buffers@);
        DeviceCall::ExecuteCommands { command_buffer: self.raw, command_buffers }
    }
}

} // verus!
