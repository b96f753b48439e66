//! What lists of regions, clears and handles hold, item by item.
//!
//! Each law says of every place in a list what stands there, in the fields of what was
//! given at that place: so nothing is lost, added or moved.
use super::values;
use crate::call::DeviceCall;
use crate::clear;
use crate::command;
use crate::command::CommandBuffer;
use crate::constants::ByteOrder;
use crate::hal::image::Layout;
use crate::hal::{command as com, pso};
use crate::native as n;
use crate::regions;
use crate::vk;
use vstd::prelude::*;

verus! {

/// Lists are as long as what was given, be it nothing.
pub proof fn law_lists_are_as_long(
    values: Seq<com::ClearValueRaw>,
    sets: Seq<n::DescriptorSet>,
    vbs: pso::VertexBufferSet,
    viewports: Seq<pso::Viewport>,
    rects: Seq<pso::Rect>,
    buffers: Seq<CommandBuffer>,
)
    ensures
        clear::clear_values(values).len() == values.len(),
        command::set_handles(sets).len() == sets.len(),
        command::vertex_buffer_handles(vbs).len() == vbs.0@.len(),
        command::vertex_buffer_offsets(vbs).len() == vbs.0@.len(),
        command::viewport_list(viewports).len() == viewports.len(),
        command::scissor_rects(rects).len() == rects.len(),
        command::command_buffer_handles(buffers).len() == buffers.len(),
{
}

/// A copy between buffers takes `size` bytes from `src` on to `dst` on, region by region.
pub proof fn law_buffer_copies(given: Seq<com::BufferCopy>, i: int)
    requires
        0 <= i < given.len(),
    ensures
        regions::buffer_copies(given).len() == given.len(),
        regions::buffer_copies(given)[i].src_offset == given[i].src,
        regions::buffer_copies(given)[i].dst_offset == given[i].dst,
        regions::buffer_copies(given)[i].size == given[i].size,
{
}

/// A copy between images takes the texels at `src_offset` to `dst_offset`, as many as
/// `extent` says, of the levels, layers and aspects named on each side.
pub proof fn law_image_copies(given: Seq<com::ImageCopy>, i: int)
    requires
        0 <= i < given.len(),
        given[i].src_subresource.layers.start <= given[i].src_subresource.layers.end,
        given[i].dst_subresource.layers.start <= given[i].dst_subresource.layers.end,
    ensures
        regions::image_copies(given).len() == given.len(),
        ({
            let mapped = regions::image_copies(given)[i];
            let region = given[i];
            &&& mapped.src_offset.x == region.src_offset.x
            &&& mapped.src_offset.y == region.src_offset.y
            &&& mapped.src_offset.z == region.src_offset.z
            &&& mapped.dst_offset.x == region.dst_offset.x
            &&& mapped.dst_offset.y == region.dst_offset.y
            &&& mapped.dst_offset.z == region.dst_offset.z
            &&& mapped.extent.width == region.extent.width
            &&& mapped.extent.height == region.extent.height
            &&& mapped.extent.depth == region.extent.depth
            &&& mapped.src_subresource.mip_level == region.src_subresource.level
            &&& mapped.src_subresource.base_array_layer == region.src_subresource.layers.start
            &&& mapped.src_subresource.base_array_layer + mapped.src_subresource.layer_count
                == region.src_subresource.layers.end
            &&& mapped.src_subresource.aspect_mask == (if region.src_subresource.aspects.color {
                1int
            } else {
                0
            }) + (if region.src_subresource.aspects.depth {
                2int
            } else {
                0
            }) + (if region.src_subresource.aspects.stencil {
                4int
            } else {
                0
            })
            &&& mapped.dst_subresource.mip_level == region.dst_subresource.level
            &&& mapped.dst_subresource.base_array_layer == region.dst_subresource.layers.start
            &&& mapped.dst_subresource.base_array_layer + mapped.dst_subresource.layer_count
                == region.dst_subresource.layers.end
            &&& mapped.dst_subresource.aspect_mask == (if region.dst_subresource.aspects.color {
                1int
            } else {
                0
            }) + (if region.dst_subresource.aspects.depth {
                2int
            } else {
                0
            }) + (if region.dst_subresource.aspects.stencil {
                4int
            } else {
                0
            })
        }),
{
    values::law_layers_are_those_named(given[i].src_subresource);
    values::law_layers_are_those_named(given[i].dst_subresource);
}

/// A resolve takes the texels at `src_offset` to `dst_offset`, as many as `extent` says, of
/// the levels, layers and aspects named on each side.
pub proof fn law_image_resolves(given: Seq<com::ImageResolve>, i: int)
    requires
        0 <= i < given.len(),
        given[i].src_subresource.layers.start <= given[i].src_subresource.layers.end,
        given[i].dst_subresource.layers.start <= given[i].dst_subresource.layers.end,
    ensures
        regions::image_resolves(given).len() == given.len(),
        ({
            let mapped = regions::image_resolves(given)[i];
            let region = given[i];
            &&& mapped.src_offset.x == region.src_offset.x
            &&& mapped.src_offset.y == region.src_offset.y
            &&& mapped.src_offset.z == region.src_offset.z
            &&& mapped.dst_offset.x == region.dst_offset.x
            &&& mapped.dst_offset.y == region.dst_offset.y
            &&& mapped.dst_offset.z == region.dst_offset.z
            &&& mapped.extent.width == region.extent.width
            &&& mapped.extent.height == region.extent.height
            &&& mapped.extent.depth == region.extent.depth
            &&& mapped.src_subresource.mip_level == region.src_subresource.level
            &&& mapped.src_subresource.base_array_layer == region.src_subresource.layers.start
            &&& mapped.src_subresource.base_array_layer + mapped.src_subresource.layer_count
                == region.src_subresource.layers.end
            &&& mapped.src_subresource.aspect_mask == (if region.src_subresource.aspects.color {
                1int
            } else {
                0
            }) + (if region.src_subresource.aspects.depth {
                2int
            } else {
                0
            }) + (if region.src_subresource.aspects.stencil {
                4int
            } else {
                0
            })
            &&& mapped.dst_subresource.mip_level == region.dst_subresource.level
            &&& mapped.dst_subresource.base_array_layer == region.dst_subresource.layers.start
            &&& mapped.dst_subresource.base_array_layer + mapped.dst_subresource.layer_count
                == region.dst_subresource.layers.end
            &&& mapped.dst_subresource.aspect_mask == (if region.dst_subresource.aspects.color {
                1int
            } else {
                0
            }) + (if region.dst_subresource.aspects.depth {
                2int
            } else {
                0
            }) + (if region.dst_subresource.aspects.stencil {
                4int
            } else {
                0
            })
        }),
{
    values::law_layers_are_those_named(given[i].src_subresource);
    values::law_layers_are_those_named(given[i].dst_subresource);
}

/// A blit stretches the box from the start to the end of the source bounds into the box
/// from the start to the end of the destination bounds, corner by corner and coordinate by
/// coordinate, of the levels, layers and aspects named on each side.
pub proof fn law_image_blits(given: Seq<com::ImageBlit>, i: int)
    requires
        0 <= i < given.len(),
        given[i].src_subresource.layers.start <= given[i].src_subresource.layers.end,
        given[i].dst_subresource.layers.start <= given[i].dst_subresource.layers.end,
    ensures
        regions::image_blits(given).len() == given.len(),
        ({
            let mapped = regions::image_blits(given)[i];
            let region = given[i];
            &&& mapped.src_offsets[0].x == region.src_bounds.start.x
            &&& mapped.src_offsets[0].y == region.src_bounds.start.y
            &&& mapped.src_offsets[0].z == region.src_bounds.start.z
            &&& mapped.src_offsets[1].x == region.src_bounds.end.x
            &&& mapped.src_offsets[1].y == region.src_bounds.end.y
            &&& mapped.src_offsets[1].z == region.src_bounds.end.z
            &&& mapped.dst_offsets[0].x == region.dst_bounds.start.x
            &&& mapped.dst_offsets[0].y == region.dst_bounds.start.y
            &&& mapped.dst_offsets[0].z == region.dst_bounds.start.z
            &&& mapped.dst_offsets[1].x == region.dst_bounds.end.x
            &&& mapped.dst_offsets[1].y == region.dst_bounds.end.y
            &&& mapped.dst_offsets[1].z == region.dst_bounds.end.z
            &&& mapped.src_subresource.mip_level == region.src_subresource.level
            &&& mapped.src_subresource.base_array_layer == region.src_subresource.layers.start
            &&& mapped.src_subresource.base_array_layer + mapped.src_subresource.layer_count
                == region.src_subresource.layers.end
            &&& mapped.src_subresource.aspect_mask == (if region.src_subresource.aspects.color {
                1int
            } else {
                0
            }) + (if region.src_subresource.aspects.depth {
                2int
            } else {
                0
            }) + (if region.src_subresource.aspects.stencil {
                4int
            } else {
                0
            })
            &&& mapped.dst_subresource.mip_level == region.dst_subresource.level
            &&& mapped.dst_subresource.base_array_layer == region.dst_subresource.layers.start
            &&& mapped.dst_subresource.base_array_layer + mapped.dst_subresource.layer_count
                == region.dst_subresource.layers.end
            &&& mapped.dst_subresource.aspect_mask == (if region.dst_subresource.aspects.color {
                1int
            } else {
                0
            }) + (if region.dst_subresource.aspects.depth {
                2int
            } else {
                0
            }) + (if region.dst_subresource.aspects.stencil {
                4int
            } else {
                0
            })
        }),
{
    values::law_layers_are_those_named(given[i].src_subresource);
    values::law_layers_are_those_named(given[i].dst_subresource);
}

/// A copy between a buffer and an image takes the texels that lie in the buffer from
/// `buffer_offset` on, in rows and planes of the size given, and in the image at
/// `image_offset`, as many as `image_extent` says, of the level, layers and aspects named.
pub proof fn law_buffer_image_copies(given: Seq<com::BufferImageCopy>, i: int)
    requires
        0 <= i < given.len(),
        given[i].image_layers.layers.start <= given[i].image_layers.layers.end,
    ensures
        regions::buffer_image_copies(given).len() == given.len(),
        ({
            let mapped = regions::buffer_image_copies(given)[i];
            let region = given[i];
            &&& mapped.buffer_offset == region.buffer_offset
            &&& mapped.buffer_row_length == region.buffer_width
            &&& mapped.buffer_image_height == region.buffer_height
            &&& mapped.image_offset.x == region.image_offset.x
            &&& mapped.image_offset.y == region.image_offset.y
            &&& mapped.image_offset.z == region.image_offset.z
            &&& mapped.image_extent.width == region.image_extent.width
            &&& mapped.image_extent.height == region.image_extent.height
            &&& mapped.image_extent.depth == region.image_extent.depth
            &&& mapped.image_subresource.mip_level == region.image_layers.level
            &&& mapped.image_subresource.base_array_layer == region.image_layers.layers.start
            &&& mapped.image_subresource.base_array_layer + mapped.image_subresource.layer_count
                == region.image_layers.layers.end
            &&& mapped.image_subresource.aspect_mask == (if region.image_layers.aspects.color {
                1int
            } else {
                0
            }) + (if region.image_layers.aspects.depth {
                2int
            } else {
                0
            }) + (if region.image_layers.aspects.stencil {
                4int
            } else {
                0
            })
            &&& mapped.image_subresource.aspect_mask & 0x1 == (
            if region.image_layers.aspects.color {
                0x1u32
            } else {
                0u32
            })
            &&& mapped.image_subresource.aspect_mask & 0x2 == (
            if region.image_layers.aspects.depth {
                0x2u32
            } else {
                0u32
            })
            &&& mapped.image_subresource.aspect_mask & 0x4 == (
            if region.image_layers.aspects.stencil {
                0x4u32
            } else {
                0u32
            })
        }),
{
    values::law_layers_are_those_named(given[i].image_layers);
    values::law_aspect_bits(given[i].image_layers.aspects);
}

/// A clear value of a render pass is held by the same four words.
pub proof fn law_clear_values(given: Seq<com::ClearValueRaw>, i: int, k: int)
    requires
        0 <= i < given.len(),
        0 <= k < 4,
    ensures
        clear::clear_values(given).len() == given.len(),
        clear::clear_values(given)[i] is Color,
        clear::clear_values(given)[i]->Color_0.words[k] == given[i].words[k],
{
}

/// The attachment at each place is cleared as asked for there: the colour attachment of
/// the index named to the colour given, component by component, or the depth and the
/// stencil to those given.
pub proof fn law_clear_attachments(given: Seq<com::AttachmentClear>, i: int, k: int)
    requires
        0 <= i < given.len(),
        0 <= k < 4,
    ensures
        clear::clear_attachments(given).len() == given.len(),
        ({
            let cleared = clear::clear_attachments(given)[i];
            match given[i] {
                com::AttachmentClear::Color(index, color) => {
                    &&& cleared.aspect_mask == 0x1
                    &&& cleared.color_attachment == index as int % 0x1_0000_0000
                    &&& cleared.clear_value is Color
                    &&& cleared.clear_value->Color_0.words[k] == (match color {
                        com::ClearColor::Float(v) => v[k] as int,
                        com::ClearColor::Uint(v) => v[k] as int,
                        com::ClearColor::Int(v) => if v[k] >= 0 {
                            v[k] as int
                        } else {
                            v[k] + 0x1_0000_0000
                        },
                    })
                },
                com::AttachmentClear::Depth(depth) => {
                    &&& cleared.aspect_mask == 0x2
                    &&& cleared.color_attachment == 0
                    &&& cleared.clear_value is DepthStencil
                    &&& cleared.clear_value->DepthStencil_0.depth == depth
                    &&& cleared.clear_value->DepthStencil_0.stencil == 0
                },
                com::AttachmentClear::Stencil(stencil) => {
                    &&& cleared.aspect_mask == 0x4
                    &&& cleared.color_attachment == 0
                    &&& cleared.clear_value is DepthStencil
                    &&& cleared.clear_value->DepthStencil_0.depth == 0
                    &&& cleared.clear_value->DepthStencil_0.stencil == stencil
                },
                com::AttachmentClear::DepthStencil(both) => {
                    &&& cleared.aspect_mask == 0x6
                    &&& cleared.color_attachment == 0
                    &&& cleared.clear_value is DepthStencil
                    &&& cleared.clear_value->DepthStencil_0.depth == both.depth
                    &&& cleared.clear_value->DepthStencil_0.stencil == both.stencil
                },
            }
        }),
{
    let zero = com::ClearDepthStencil { depth: 0, stencil: 0 };
    let black = com::ClearColor::Uint([0, 0, 0, 0]);
    match given[i] {
        com::AttachmentClear::Color(index, color) => values::law_cleared_attachments(
            index,
            color,
            0,
            0,
            zero,
            k,
        ),
        com::AttachmentClear::Depth(depth) => values::law_cleared_attachments(
            0,
            black,
            depth,
            0,
            zero,
            k,
        ),
        com::AttachmentClear::Stencil(stencil) => values::law_cleared_attachments(
            0,
            black,
            0,
            stencil,
            zero,
            k,
        ),
        com::AttachmentClear::DepthStencil(both) => values::law_cleared_attachments(
            0,
            black,
            0,
            0,
            both,
            k,
        ),
    }
}

/// The rectangle at each place is cleared where it lies, through all layers.
pub proof fn law_clear_rects(given: Seq<pso::Rect>, i: int)
    requires
        0 <= i < given.len(),
    ensures
        clear::clear_rects(given).len() == given.len(),
        clear::clear_rects(given)[i].rect.offset.x == given[i].x,
        clear::clear_rects(given)[i].rect.offset.y == given[i].y,
        clear::clear_rects(given)[i].rect.extent.width == given[i].w,
        clear::clear_rects(given)[i].rect.extent.height == given[i].h,
        clear::clear_rects(given)[i].base_array_layer == 0,
        clear::clear_rects(given)[i].layer_count == 0xffff_ffff,
{
}

/// The scissor rectangle at each place is the one given there.
pub proof fn law_scissors(given: Seq<pso::Rect>, i: int)
    requires
        0 <= i < given.len(),
    ensures
        command::scissor_rects(given).len() == given.len(),
        command::scissor_rects(given)[i].offset.x == given[i].x,
        command::scissor_rects(given)[i].offset.y == given[i].y,
        command::scissor_rects(given)[i].extent.width == given[i].w,
        command::scissor_rects(given)[i].extent.height == given[i].h,
{
}

/// The viewport at each place is the one given there.
pub proof fn law_viewports(given: Seq<pso::Viewport>, i: int)
    requires
        0 <= i < given.len(),
    ensures
        command::viewport_list(given).len() == given.len(),
        command::viewport_list(given)[i].x == given[i].rect.x,
        command::viewport_list(given)[i].y == given[i].rect.y,
        command::viewport_list(given)[i].width == given[i].rect.w,
        command::viewport_list(given)[i].height == given[i].rect.h,
        command::viewport_list(given)[i].min_depth == given[i].depth.start,
        command::viewport_list(given)[i].max_depth == given[i].depth.end,
{
}

/// Binding `i` has the buffer given there, and its vertices start at the byte given there.
pub proof fn law_vertex_buffers(vbs: pso::VertexBufferSet, i: int)
    requires
        0 <= i < vbs.0@.len(),
    ensures
        command::vertex_buffer_handles(vbs).len() == vbs.0@.len(),
        command::vertex_buffer_offsets(vbs).len() == vbs.0@.len(),
        command::vertex_buffer_handles(vbs)[i] == vbs.0@[i].0.raw,
        command::vertex_buffer_offsets(vbs)[i] == vbs.0@[i].1,
{
}

/// Secondary command buffers run in the order given: the one at each place is the one
/// given there, and two runs, one after the other, run as one.
pub proof fn law_secondary_command_buffers(
    given: Seq<CommandBuffer>,
    more: Seq<CommandBuffer>,
    i: int,
)
    requires
        0 <= i < given.len(),
    ensures
        command::command_buffer_handles(given).len() == given.len(),
        command::command_buffer_handles(given)[i] == given[i].raw,
        command::command_buffer_handles(given + more) == command::command_buffer_handles(given)
            + command::command_buffer_handles(more),
{
}

/// A call that binds descriptor sets binds those given, in their order, from the number
/// given on (modulo two to the power of 32), for the kind of pipeline and the layout
/// given, and moves none of them.
pub proof fn law_bound_sets_are_those_given(
    call: DeviceCall,
    command_buffer: CommandBuffer,
    bind_point: vk::PipelineBindPoint,
    layout: n::PipelineLayout,
    first_set: usize,
    sets: Seq<n::DescriptorSet>,
)
    requires
        command::binds_descriptor_sets(call, command_buffer, bind_point, layout, first_set, sets),
    ensures
        call is BindDescriptorSets,
        call->BindDescriptorSets_command_buffer == command_buffer.raw,
        call->BindDescriptorSets_pipeline_bind_point == bind_point,
        call->BindDescriptorSets_layout == layout.raw,
        call->first_set == first_set as int % 0x1_0000_0000,
        call->descriptor_sets@.len() == sets.len(),
        forall|i: int| 0 <= i < sets.len() ==> #[trigger] call->descriptor_sets@[i] == sets[i].raw,
        call->dynamic_offsets@.len() == 0,
{
    values::lemma_cut_to_word(first_set);
}

/// A call that copies texels to an image takes them from the buffer given to the image
/// given, in the layout given, region by region.
pub proof fn law_texels_reach_the_image(
    call: DeviceCall,
    command_buffer: CommandBuffer,
    src: n::Buffer,
    dst: n::Image,
    dst_layout: Layout,
    given: Seq<com::BufferImageCopy>,
)
    requires
        command::copies_buffer_to_image(call, command_buffer, src, dst, dst_layout, given),
    ensures
        call is CopyBufferToImage,
        call->CopyBufferToImage_command_buffer == command_buffer.raw,
        call->CopyBufferToImage_src_buffer == src.raw,
        call->CopyBufferToImage_dst_image == dst.raw,
        call->CopyBufferToImage_dst_image_layout == (match dst_layout {
            Layout::General => vk::ImageLayout::General,
            Layout::ColorAttachmentOptimal => vk::ImageLayout::ColorAttachmentOptimal,
            Layout::DepthStencilAttachmentOptimal => vk::ImageLayout::DepthStencilAttachmentOptimal,
            Layout::DepthStencilReadOnlyOptimal => vk::ImageLayout::DepthStencilReadOnlyOptimal,
            Layout::ShaderReadOnlyOptimal => vk::ImageLayout::ShaderReadOnlyOptimal,
            Layout::TransferSrcOptimal => vk::ImageLayout::TransferSrcOptimal,
            Layout::TransferDstOptimal => vk::ImageLayout::TransferDstOptimal,
            Layout::Undefined => vk::ImageLayout::Undefined,
            Layout::Preinitialized => vk::ImageLayout::Preinitialized,
            Layout::Present => vk::ImageLayout::PresentSrcKhr,
        }),
        call->CopyBufferToImage_regions@ == regions::buffer_image_copies(given),
        call->CopyBufferToImage_regions@.len() == given.len(),
        forall|i: int|
            0 <= i < given.len() ==> {
                &&& (#[trigger] call->CopyBufferToImage_regions@[i]).buffer_offset
                    == given[i].buffer_offset
                &&& call->CopyBufferToImage_regions@[i].image_offset.x == given[i].image_offset.x
                &&& call->CopyBufferToImage_regions@[i].image_offset.y == given[i].image_offset.y
                &&& call->CopyBufferToImage_regions@[i].image_offset.z == given[i].image_offset.z
            },
{
}

/// A call that copies texels to a buffer takes them from the image given, in the layout
/// given, to the buffer given, region by region.
pub proof fn law_texels_reach_the_buffer(
    call: DeviceCall,
    command_buffer: CommandBuffer,
    src: n::Image,
    src_layout: Layout,
    dst: n::Buffer,
    given: Seq<com::BufferImageCopy>,
)
    requires
        command::copies_image_to_buffer(call, command_buffer, src, src_layout, dst, given),
    ensures
        call is CopyImageToBuffer,
        call->CopyImageToBuffer_command_buffer == command_buffer.raw,
        call->CopyImageToBuffer_src_image == src.raw,
        call->CopyImageToBuffer_src_image_layout == (match src_layout {
            Layout::General => vk::ImageLayout::General,
            Layout::ColorAttachmentOptimal => vk::ImageLayout::ColorAttachmentOptimal,
            Layout::DepthStencilAttachmentOptimal => vk::ImageLayout::DepthStencilAttachmentOptimal,
            Layout::DepthStencilReadOnlyOptimal => vk::ImageLayout::DepthStencilReadOnlyOptimal,
            Layout::ShaderReadOnlyOptimal => vk::ImageLayout::ShaderReadOnlyOptimal,
            Layout::TransferSrcOptimal => vk::ImageLayout::TransferSrcOptimal,
            Layout::TransferDstOptimal => vk::ImageLayout::TransferDstOptimal,
            Layout::Undefined => vk::ImageLayout::Undefined,
            Layout::Preinitialized => vk::ImageLayout::Preinitialized,
            Layout::Present => vk::ImageLayout::PresentSrcKhr,
        }),
        call->CopyImageToBuffer_dst_buffer == dst.raw,
        call->CopyImageToBuffer_regions@ == regions::buffer_image_copies(given),
        call->CopyImageToBuffer_regions@.len() == given.len(),
        forall|i: int|
            0 <= i < given.len() ==> {
                &&& (#[trigger] call->CopyImageToBuffer_regions@[i]).buffer_offset
                    == given[i].buffer_offset
                &&& call->CopyImageToBuffer_regions@[i].image_offset.x == given[i].image_offset.x
                &&& call->CopyImageToBuffer_regions@[i].image_offset.y == given[i].image_offset.y
                &&& call->CopyImageToBuffer_regions@[i].image_offset.z == given[i].image_offset.z
            },
{
}

/// Stencil references that are the same are set by one call for both faces; others by
/// one call for the front and then one for the back. All are for the command buffer.
pub proof fn law_stencil_calls(raw: usize, front: pso::StencilValue, back: pso::StencilValue)
    ensures
        ({
            let calls = command::stencil_calls(raw, front, back);
            &&& calls.len() == (if front == back { 1nat } else { 2nat })
            &&& front == back ==> calls[0] == (DeviceCall::SetStencilReference {
                command_buffer: raw,
                face_mask: 0x3,
                reference: front,
            })
            &&& front != back ==> calls[0] == (DeviceCall::SetStencilReference {
                command_buffer: raw,
                face_mask: 0x1,
                reference: front,
            })
            &&& front != back ==> calls[1] == (DeviceCall::SetStencilReference {
                command_buffer: raw,
                face_mask: 0x2,
                reference: back,
            })
        }),
{
}

/// A call that pushes constants hands over those given, for the stages and the layout
/// given, at four bytes to the word; in either byte order, the four bytes of each make it
/// up.
pub proof fn law_pushed_constants(
    raw: usize,
    layout: n::PipelineLayout,
    stages: pso::ShaderStageFlags,
    offset: u32,
    constants: &[u32],
    i: int,
)
    requires
        offset * 4 <= u32::MAX,
    ensures
        ({
            let call = command::push_constants_call(raw, layout, stages, offset, constants);
            let little = call.pushed_bytes(ByteOrder::LittleEndian);
            let big = call.pushed_bytes(ByteOrder::BigEndian);
            &&& call is PushConstants
            &&& call->PushConstants_command_buffer == raw
            &&& call->PushConstants_layout == layout.raw
            &&& call->stage_flags == stages.bits
            &&& call->PushConstants_offset == offset * 4
            &&& call->values@ == constants@
            &&& little.len() == 4 * constants@.len()
            &&& big.len() == 4 * constants@.len()
            &&& 0 <= i < constants@.len() ==> constants@[i] == little[4 * i] + 0x100 * little[4 * i + 1]
                + 0x1_0000 * little[4 * i
                + 2] + 0x100_0000 * little[4 * i + 3]
            &&& 0 <= i < constants@.len() ==> constants@[i] == big[4 * i + 3] + 0x100 * big[4 * i + 2]
                + 0x1_0000 * big[4 * i + 1]
                + 0x100_0000 * big[4 * i]
        }),
{
    if 0 <= i < constants@.len() {
        values::law_bytes_make_up_the_words(constants@, i);
    }
}

} // verus!
