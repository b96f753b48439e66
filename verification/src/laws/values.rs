//! What single values mean to Vulkan, field by field.
use crate::call::{DeviceCall, Settled};
use crate::clear;
use crate::command;
use crate::constants;
use crate::constants::ByteOrder;
use crate::conv;
use crate::hal::format::Aspects;
use crate::hal::memory::Barrier;
use crate::hal::{buffer, command as com, image, pso};
use crate::vk;
use vstd::prelude::*;

verus! {

/// The numbers that Vulkan gives to what commands name.
pub proof fn law_vulkan_numbers()
    ensures
        vk::WHOLE_SIZE == 0xffff_ffff_ffff_ffff,
        vk::QUEUE_FAMILY_IGNORED == 0xffff_ffff,
        vk::REMAINING_ARRAY_LAYERS == 0xffff_ffff,
        vk::IMAGE_ASPECT_COLOR == 0x1,
        vk::IMAGE_ASPECT_DEPTH == 0x2,
        vk::IMAGE_ASPECT_STENCIL == 0x4,
        vk::STENCIL_FACE_FRONT == 0x1,
        vk::STENCIL_FACE_BACK == 0x2,
        vk::STENCIL_FRONT_AND_BACK == 0x3,
        vk::SHADER_STAGE_COMPUTE == 0x20,
        vk::QUERY_CONTROL_PRECISE == 0x1,
        vk::COMMAND_BUFFER_RESET_RELEASE_RESOURCES == 0x1,
{
}

/// A layout has the same name on both sides, but for the one to present from.
pub proof fn law_layouts_keep_their_names(layout: image::Layout)
    ensures
        layout is General <==> conv::image_layout(layout) is General,
        layout is ColorAttachmentOptimal <==> conv::image_layout(
            layout,
        ) is ColorAttachmentOptimal,
        layout is DepthStencilAttachmentOptimal <==> conv::image_layout(
            layout,
        ) is DepthStencilAttachmentOptimal,
        layout is DepthStencilReadOnlyOptimal <==> conv::image_layout(
            layout,
        ) is DepthStencilReadOnlyOptimal,
        layout is ShaderReadOnlyOptimal <==> conv::image_layout(layout) is ShaderReadOnlyOptimal,
        layout is TransferSrcOptimal <==> conv::image_layout(layout) is TransferSrcOptimal,
        layout is TransferDstOptimal <==> conv::image_layout(layout) is TransferDstOptimal,
        layout is Undefined <==> conv::image_layout(layout) is Undefined,
        layout is Preinitialized <==> conv::image_layout(layout) is Preinitialized,
        layout is Present <==> conv::image_layout(layout) is PresentSrcKhr,
{
}

/// Filters, index types and kinds of subpass contents keep what they stand for.
pub proof fn law_kinds_keep_their_names(
    filter: image::Filter,
    index_type: buffer::IndexType,
    contents: com::SubpassContents,
)
    ensures
        filter is Nearest <==> conv::filter(filter) is Nearest,
        filter is Linear <==> conv::filter(filter) is Linear,
        index_type is U16 <==> conv::index_type(index_type) is Uint16,
        index_type is U32 <==> conv::index_type(index_type) is Uint32,
        contents is Inline <==> command::subpass_contents(contents) is Inline,
        contents is SecondaryBuffers <==> command::subpass_contents(
            contents,
        ) is SecondaryCommandBuffers,
{
}

/// Positions and sizes keep every coordinate in its place.
pub proof fn law_coordinates_stay_in_place(offset: image::Offset, extent: image::Extent)
    ensures
        conv::offset(offset).x == offset.x,
        conv::offset(offset).y == offset.y,
        conv::offset(offset).z == offset.z,
        conv::extent(extent).width == extent.width,
        conv::extent(extent).height == extent.height,
        conv::extent(extent).depth == extent.depth,
{
}

/// A rectangle keeps its corner and its size.
pub proof fn law_rectangles_stay_in_place(rect: pso::Rect)
    ensures
        conv::rect(rect).offset.x == rect.x,
        conv::rect(rect).offset.y == rect.y,
        conv::rect(rect).extent.width == rect.w,
        conv::rect(rect).extent.height == rect.h,
{
}

/// A viewport keeps its corner and its size; its least depth is the one at which the
/// range of depths starts, its greatest the one at which it ends.
pub proof fn law_viewports_stay_in_place(viewport: pso::Viewport)
    ensures
        conv::viewport(viewport).x == viewport.rect.x,
        conv::viewport(viewport).y == viewport.rect.y,
        conv::viewport(viewport).width == viewport.rect.w,
        conv::viewport(viewport).height == viewport.rect.h,
        conv::viewport(viewport).min_depth == viewport.depth.start,
        conv::viewport(viewport).max_depth == viewport.depth.end,
{
}

/// The mask of a set of aspects has the lowest bit exactly for colour, the second
/// exactly for depth, the third exactly for stencil, and no other.
pub proof fn law_aspect_bits(aspects: Aspects)
    ensures
        conv::image_aspects(aspects) & 0x1 == (if aspects.color { 0x1u32 } else { 0u32 }),
        conv::image_aspects(aspects) & 0x2 == (if aspects.depth { 0x2u32 } else { 0u32 }),
        conv::image_aspects(aspects) & 0x4 == (if aspects.stencil { 0x4u32 } else { 0u32 }),
        conv::image_aspects(aspects) == (if aspects.color { 1int } else { 0 }) + (if aspects.depth {
            2int
        } else {
            0
        }) + (if aspects.stencil { 4int } else { 0 }),
{
    let c: u32 = if aspects.color { 1 } else { 0 };
    let d: u32 = if aspects.depth { 2 } else { 0 };
    let s: u32 = if aspects.stencil { 4 } else { 0 };
    assert(conv::image_aspects(aspects) == c | d | s);
    assert((c | d | s) & 1 == c && (c | d | s) & 2 == d && (c | d | s) & 4 == s && (c | d | s) == c
        + d + s) by (bit_vector)
        requires
            c == 0 || c == 1,
            d == 0 || d == 2,
            s == 0 || s == 4,
    ;
}

/// The mask of every set of aspects is the sum of the bits of its aspects.
pub(crate) proof fn lemma_all_aspect_masks()
    ensures
        forall|aspects: Aspects| #[trigger]
            conv::image_aspects(aspects) == (if aspects.color {
                1int
            } else {
                0
            }) + (if aspects.depth {
                2int
            } else {
                0
            }) + (if aspects.stencil {
                4int
            } else {
                0
            }),
        forall|aspects: Aspects| #[trigger]
            conv::image_aspects(aspects) & 0x1 == (if aspects.color {
                0x1u32
            } else {
                0u32
            }),
        forall|aspects: Aspects| #[trigger]
            conv::image_aspects(aspects) & 0x2 == (if aspects.depth {
                0x2u32
            } else {
                0u32
            }),
        forall|aspects: Aspects| #[trigger]
            conv::image_aspects(aspects) & 0x4 == (if aspects.stencil {
                0x4u32
            } else {
                0u32
            }),
{
    assert forall|aspects: Aspects|
        {
            let mask = #[trigger] conv::image_aspects(aspects);
            &&& mask == (if aspects.color { 1int } else { 0 }) + (if aspects.depth {
                2int
            } else {
                0
            }) + (if aspects.stencil { 4int } else { 0 })
            &&& mask & 0x1 == (if aspects.color { 0x1u32 } else { 0u32 })
            &&& mask & 0x2 == (if aspects.depth { 0x2u32 } else { 0u32 })
            &&& mask & 0x4 == (if aspects.stencil { 0x4u32 } else { 0u32 })
        } by {
        law_aspect_bits(aspects);
    }
}

/// A set of aspects lies in another where it names nothing that the other does not.
/// What may be cleared to a colour names neither depth nor stencil, and what may be
/// cleared to a depth and a stencil does not name colour.
pub proof fn law_aspects_contained(outer: Aspects, inner: Aspects)
    ensures
        outer.spec_contains(inner) <==> (inner.color ==> outer.color) && (inner.depth
            ==> outer.depth) && (inner.stencil ==> outer.stencil),
        Aspects::spec_color().spec_contains(inner) <==> !inner.depth && !inner.stencil,
        Aspects::spec_depth_stencil().spec_contains(inner) <==> !inner.color,
{
}

/// A part of an image is well formed exactly where no range ends before it starts,
/// and a request exactly where the parts that it names are.
pub proof fn law_well_formed_is_ordered(
    layers: image::SubresourceLayers,
    range: image::SubresourceRange,
    copy: com::ImageCopy,
    resolve: com::ImageResolve,
    blit: com::ImageBlit,
    texels: com::BufferImageCopy,
    barrier: Barrier,
)
    ensures
        layers.wf() <==> layers.layers.start <= layers.layers.end,
        range.wf() <==> range.levels.start <= range.levels.end && range.layers.start
            <= range.layers.end,
        copy.wf() <==> copy.src_subresource.layers.start <= copy.src_subresource.layers.end
            && copy.dst_subresource.layers.start <= copy.dst_subresource.layers.end,
        resolve.wf() <==> resolve.src_subresource.layers.start <= resolve.src_subresource.layers.end
            && resolve.dst_subresource.layers.start <= resolve.dst_subresource.layers.end,
        blit.wf() <==> blit.src_subresource.layers.start <= blit.src_subresource.layers.end
            && blit.dst_subresource.layers.start <= blit.dst_subresource.layers.end,
        texels.wf() <==> texels.image_layers.layers.start <= texels.image_layers.layers.end,
        barrier !is Image ==> barrier.wf(),
        barrier is Image ==> (barrier.wf() <==> barrier->range.levels.start
            <= barrier->range.levels.end && barrier->range.layers.start
            <= barrier->range.layers.end),
{
}

/// Layers of a level keep the level; they begin with the first layer named, and the
/// last is the one before the end of the range. The aspects are those named.
pub proof fn law_layers_are_those_named(sub: image::SubresourceLayers)
    requires
        sub.layers.start <= sub.layers.end,
    ensures
        conv::subresource_layers(sub).mip_level == sub.level,
        conv::subresource_layers(sub).base_array_layer == sub.layers.start,
        conv::subresource_layers(sub).base_array_layer + conv::subresource_layers(sub).layer_count
            == sub.layers.end,
        conv::subresource_layers(sub).aspect_mask == (if sub.aspects.color { 1int } else { 0 }) + (
        if sub.aspects.depth { 2int } else { 0 }) + (if sub.aspects.stencil { 4int } else { 0 }),
{
    law_aspect_bits(sub.aspects);
}

/// Levels and layers begin with the first named, and the last is the one before the
/// end of the range. The aspects are those named.
pub proof fn law_levels_and_layers_are_those_named(range: image::SubresourceRange)
    requires
        range.levels.start <= range.levels.end,
        range.layers.start <= range.layers.end,
    ensures
        conv::subresource_range(range).base_mip_level == range.levels.start,
        conv::subresource_range(range).base_mip_level + conv::subresource_range(range).level_count
            == range.levels.end,
        conv::subresource_range(range).base_array_layer == range.layers.start,
        conv::subresource_range(range).base_array_layer + conv::subresource_range(range).layer_count
            == range.layers.end,
        conv::subresource_range(range).aspect_mask == (if range.aspects.color { 1int } else { 0 })
            + (if range.aspects.depth { 2int } else { 0 }) + (if range.aspects.stencil {
            4int
        } else {
            0
        }),
{
    law_aspect_bits(range.aspects);
}

/// The word of memory that holds a signed number is the number itself, or where it is
/// negative the number plus two to the power of 32.
proof fn lemma_signed_word(v: i32)
    ensures
        v as u32 == (if v >= 0 { v as int } else { v + 0x1_0000_0000 }),
{
    assert(v >= 0 ==> v as u32 == v) by (bit_vector);
    assert(v < 0 ==> v as u32 == v + 0x1_0000_0000) by (bit_vector);
}

/// A clear colour keeps every component in its place: word `k` of the value is the
/// word of memory that holds component `k` of the colour.
pub proof fn law_clear_colors_keep_their_components(
    floats: [u32; 4],
    signed: [i32; 4],
    unsigned: [u32; 4],
    k: int,
)
    requires
        0 <= k < 4,
    ensures
        conv::clear_color(com::ClearColor::Float(floats)).words[k] == floats[k],
        conv::clear_color(com::ClearColor::Uint(unsigned)).words[k] == unsigned[k],
        conv::clear_color(com::ClearColor::Int(signed)).words[k] == (if signed[k] >= 0 {
            signed[k] as int
        } else {
            signed[k] + 0x1_0000_0000
        }),
{
    lemma_signed_word(signed[0]);
    lemma_signed_word(signed[1]);
    lemma_signed_word(signed[2]);
    lemma_signed_word(signed[3]);
}

/// Each word of a clear colour is the word of memory that holds its component.
proof fn lemma_color_words(color: com::ClearColor)
    ensures
        forall|k: int|
            0 <= k < 4 ==> #[trigger] conv::clear_color(color).words[k] == (match color {
                com::ClearColor::Float(v) => v[k] as int,
                com::ClearColor::Uint(v) => v[k] as int,
                com::ClearColor::Int(v) => if v[k] >= 0 {
                    v[k] as int
                } else {
                    v[k] + 0x1_0000_0000
                },
            }),
{
    if let com::ClearColor::Int(v) = color {
        lemma_signed_word(v[0]);
        lemma_signed_word(v[1]);
        lemma_signed_word(v[2]);
        lemma_signed_word(v[3]);
    }
}

/// Each word of every clear colour is the word of memory that holds its component.
pub(crate) proof fn lemma_all_color_words()
    ensures
        forall|color: com::ClearColor, k: int|
            0 <= k < 4 ==> #[trigger] conv::clear_color(color).words[k] == (match color {
                com::ClearColor::Float(v) => v[k] as int,
                com::ClearColor::Uint(v) => v[k] as int,
                com::ClearColor::Int(v) => if v[k] >= 0 {
                    v[k] as int
                } else {
                    v[k] + 0x1_0000_0000
                },
            }),
{
    assert forall|color: com::ClearColor, k: int| 0 <= k < 4 implies #[trigger] conv::clear_color(
        color,
    ).words[k] == (match color {
        com::ClearColor::Float(v) => v[k] as int,
        com::ClearColor::Uint(v) => v[k] as int,
        com::ClearColor::Int(v) => if v[k] >= 0 {
            v[k] as int
        } else {
            v[k] + 0x1_0000_0000
        },
    }) by {
        lemma_color_words(color);
    }
}

/// Depth and stencil to clear to are those given; the one that is not given is zero.
pub proof fn law_clear_depth_and_stencil(
    depth: pso::DepthValue,
    stencil: pso::StencilValue,
    both: com::ClearDepthStencil,
)
    ensures
        conv::clear_depth(depth).depth == depth,
        conv::clear_depth(depth).stencil == 0,
        conv::clear_stencil(stencil).depth == 0,
        conv::clear_stencil(stencil).stencil == stencil,
        conv::clear_depth_stencil(both).depth == both.depth,
        conv::clear_depth_stencil(both).stencil == both.stencil,
{
}

/// A size cut to 32 bits is the size modulo two to the power of 32.
pub(crate) proof fn lemma_cut_to_word(size: usize)
    ensures
        size as u32 == size as int % 0x1_0000_0000,
{
    let wide = size as u64;
    assert(wide as u32 == wide % 0x1_0000_0000) by (bit_vector);
}

/// An attachment to clear: the aspect named, the colour attachment of the index named
/// (modulo two to the power of 32), and the value given, component by component.
pub proof fn law_cleared_attachments(
    index: usize,
    color: com::ClearColor,
    depth: pso::DepthValue,
    stencil: pso::StencilValue,
    both: com::ClearDepthStencil,
    k: int,
)
    requires
        0 <= k < 4,
    ensures
        ({
            let cleared = clear::clear_attachment(com::AttachmentClear::Color(index, color));
            &&& cleared.aspect_mask == 0x1
            &&& cleared.color_attachment == index as int % 0x1_0000_0000
            &&& cleared.clear_value is Color
            &&& color matches com::ClearColor::Float(v)
                ==> cleared.clear_value->Color_0.words[k] == v[k]
            &&& color matches com::ClearColor::Uint(v)
                ==> cleared.clear_value->Color_0.words[k] == v[k]
            &&& color matches com::ClearColor::Int(v) ==> cleared.clear_value->Color_0.words[k] == (
            if v[k] >= 0 { v[k] as int } else { v[k] + 0x1_0000_0000 })
        }),
        ({
            let cleared = clear::clear_attachment(com::AttachmentClear::Depth(depth));
            &&& cleared.aspect_mask == 0x2
            &&& cleared.color_attachment == 0
            &&& cleared.clear_value is DepthStencil
            &&& cleared.clear_value->DepthStencil_0.depth == depth
            &&& cleared.clear_value->DepthStencil_0.stencil == 0
        }),
        ({
            let cleared = clear::clear_attachment(com::AttachmentClear::Stencil(stencil));
            &&& cleared.aspect_mask == 0x4
            &&& cleared.color_attachment == 0
            &&& cleared.clear_value is DepthStencil
            &&& cleared.clear_value->DepthStencil_0.depth == 0
            &&& cleared.clear_value->DepthStencil_0.stencil == stencil
        }),
        ({
            let cleared = clear::clear_attachment(com::AttachmentClear::DepthStencil(both));
            &&& cleared.aspect_mask == 0x6
            &&& cleared.color_attachment == 0
            &&& cleared.clear_value is DepthStencil
            &&& cleared.clear_value->DepthStencil_0.depth == both.depth
            &&& cleared.clear_value->DepthStencil_0.stencil == both.stencil
        }),
{
    assert(2u32 | 4u32 == 6u32) by (bit_vector);
    lemma_cut_to_word(index);
    match color {
        com::ClearColor::Float(v) => law_clear_colors_keep_their_components(v, [0, 0, 0, 0], v, k),
        com::ClearColor::Uint(v) => law_clear_colors_keep_their_components(v, [0, 0, 0, 0], v, k),
        com::ClearColor::Int(v) => law_clear_colors_keep_their_components(
            [0, 0, 0, 0],
            v,
            [0, 0, 0, 0],
            k,
        ),
    }
}

/// A rectangle to clear stays where it is and reaches through all layers, from the
/// first on.
pub proof fn law_cleared_rectangles(rect: pso::Rect)
    ensures
        clear::clear_rect(rect).rect.offset.x == rect.x,
        clear::clear_rect(rect).rect.offset.y == rect.y,
        clear::clear_rect(rect).rect.extent.width == rect.w,
        clear::clear_rect(rect).rect.extent.height == rect.h,
        clear::clear_rect(rect).base_array_layer == 0,
        clear::clear_rect(rect).layer_count == 0xffff_ffff,
{
}

/// The bytes of words in memory: those of word `i` are the four from `4 * i` on, and as
/// digits to the base 256, from the first on or from the last on as the machine has it,
/// they make up the word.
pub proof fn law_bytes_make_up_the_words(words: Seq<u32>, i: int)
    requires
        0 <= i < words.len(),
    ensures
        ({
            let bytes = constants::bytes_of(words, ByteOrder::LittleEndian);
            &&& bytes.len() == 4 * words.len()
            &&& words[i] == bytes[4 * i] + 0x100 * bytes[4 * i + 1] + 0x1_0000 * bytes[4 * i + 2]
                + 0x100_0000 * bytes[4 * i + 3]
        }),
        ({
            let bytes = constants::bytes_of(words, ByteOrder::BigEndian);
            &&& bytes.len() == 4 * words.len()
            &&& words[i] == bytes[4 * i + 3] + 0x100 * bytes[4 * i + 2] + 0x1_0000 * bytes[4 * i
                + 1] + 0x100_0000 * bytes[4 * i]
        }),
{
    let word = words[i];
    assert(word == word % 256 + 256 * (word / 256 % 256) + 65536 * (word / 65536 % 256) + 16777216
        * (word / 16777216)) by (bit_vector);
    assert(word / 16777216 < 256) by (bit_vector);
    let little = constants::bytes_of(words, ByteOrder::LittleEndian);
    let big = constants::bytes_of(words, ByteOrder::BigEndian);
    let digits = constants::digits(word);
    assert(little[4 * i] == digits[0] && little[4 * i + 1] == digits[1] && little[4 * i + 2]
        == digits[2] && little[4 * i + 3] == digits[3]);
    assert(big[4 * i] == digits[3] && big[4 * i + 1] == digits[2] && big[4 * i + 2] == digits[1]
        && big[4 * i + 3] == digits[0]);
}

/// A call is for one command buffer, and either records into it or changes its state as a
/// whole, which those do that begin, end or reset it.
pub proof fn law_calls_are_for_one_command_buffer(call: DeviceCall, raw: usize)
    ensures
        call.controls(raw) <==> call.target() == raw && (call is BeginCommandBuffer
            || call is EndCommandBuffer || call is ResetCommandBuffer),
        call.records_into(raw) <==> call.target() == raw && !(call is BeginCommandBuffer
            || call is EndCommandBuffer || call is ResetCommandBuffer),
{
}

/// A device error stops the caller exactly on a call that begins, ends or resets a
/// command buffer, and with the code of the device.
pub proof fn law_errors_stop_what_reports(call: DeviceCall, code: i32)
    ensures
        call.outcome(Ok(())) == Settled::Recorded,
        call is BeginCommandBuffer || call is EndCommandBuffer || call is ResetCommandBuffer
            ==> call.outcome(Err(code)) == Settled::Failed(code),
        !(call is BeginCommandBuffer || call is EndCommandBuffer || call is ResetCommandBuffer)
            ==> call.outcome(Err(code)) == Settled::Recorded,
{
}

} // verus!
