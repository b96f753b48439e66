//! What holds across commands.
use crate::barrier;
use crate::call::{DeviceCall, Settled};
use crate::clear;
use crate::command;
use crate::command::CommandBuffer;
use crate::constants;
use crate::constants::{bytes_of, ByteOrder};
use crate::conv;
use crate::hal::format::Aspects;
use crate::hal::memory::Barrier;
use crate::hal::{buffer, command as com, image, pso};
use crate::native as n;
use crate::regions;
use crate::vk;
use vstd::prelude::*;

pub mod barriers;
pub mod lists;
pub mod values;

verus! {

/// No barrier is lost and none is told twice: the three lists together are as long
/// as the list of barriers that was given.
pub proof fn law_barriers_are_all_kept(barriers: Seq<Barrier>)
    ensures
        barrier::global_barriers(barriers).len() + barrier::buffer_barriers(barriers).len()
            + barrier::image_barriers(barriers).len() == barriers.len(),
    decreases barriers.len(),
{
    reveal(Seq::filter);
    if barriers.len() > 0 {
        law_barriers_are_all_kept(barriers.drop_last());
        assert(barriers.drop_last().push(barriers.last()) =~= barriers);
        barrier::lemma_one_more(barriers.drop_last(), barriers.last());
    }
}

/// Each barrier stands in the list of what it is on.
pub proof fn law_each_barrier_is_in_its_list(barriers: Seq<Barrier>, i: int)
    requires
        0 <= i < barriers.len(),
    ensures
        barrier::is_global(barriers[i]) ==> barrier::global_barriers(barriers).contains(
            barrier::global_barrier(barriers[i]),
        ),
        barriers[i] is Buffer ==> barrier::buffer_barriers(barriers).contains(
            barrier::buffer_barrier(barriers[i]),
        ),
        barriers[i] is Image ==> barrier::image_barriers(barriers).contains(
            barrier::image_barrier(barriers[i]),
        ),
    decreases barriers.len(),
{
    let before = barriers.drop_last();
    let last = barriers.last();
    assert(before.push(last) =~= barriers);
    barrier::lemma_one_more(before, last);
    if i == barriers.len() - 1 {
        if barrier::is_global(last) {
            let k = barrier::global_barriers(before).len() as int;
            assert(barrier::global_barriers(barriers)[k] == barrier::global_barrier(last));
        } else if last is Buffer {
            let k = barrier::buffer_barriers(before).len() as int;
            assert(barrier::buffer_barriers(barriers)[k] == barrier::buffer_barrier(last));
        } else {
            let k = barrier::image_barriers(before).len() as int;
            assert(barrier::image_barriers(barriers)[k] == barrier::image_barrier(last));
        }
    } else {
        law_each_barrier_is_in_its_list(before, i);
        if barrier::is_global(barriers[i]) {
            let list = barrier::global_barriers(before);
            let k = choose|k: int|
                0 <= k < list.len() && list[k] == barrier::global_barrier(before[i]);
            assert(barrier::global_barriers(barriers)[k] == list[k]);
        } else if barriers[i] is Buffer {
            let list = barrier::buffer_barriers(before);
            let k = choose|k: int|
                0 <= k < list.len() && list[k] == barrier::buffer_barrier(before[i]);
            assert(barrier::buffer_barriers(barriers)[k] == list[k]);
        } else {
            let list = barrier::image_barriers(before);
            let k = choose|k: int|
                0 <= k < list.len() && list[k] == barrier::image_barrier(before[i]);
            assert(barrier::image_barriers(barriers)[k] == list[k]);
        }
    }
}

/// Barriers keep their order: what comes of two runs of barriers, one after the
/// other, is what comes of the first, followed by what comes of the second.
pub proof fn law_barriers_keep_their_order(first: Seq<Barrier>, second: Seq<Barrier>)
    ensures
        barrier::global_barriers(first + second) == barrier::global_barriers(first)
            + barrier::global_barriers(second),
        barrier::buffer_barriers(first + second) == barrier::buffer_barriers(first)
            + barrier::buffer_barriers(second),
        barrier::image_barriers(first + second) == barrier::image_barriers(first)
            + barrier::image_barriers(second),
    decreases second.len(),
{
    if second.len() == 0 {
        reveal(Seq::filter);
        assert(first + second =~= first);
    } else {
        let before = second.drop_last();
        let last = second.last();
        law_barriers_keep_their_order(first, before);
        assert(before.push(last) =~= second);
        assert((first + before).push(last) =~= first + second);
        barrier::lemma_one_more(before, last);
        barrier::lemma_one_more(first + before, last);
    }
}

/// A barrier on a buffer covers it from the first byte to the last, and neither it
/// nor a barrier on an image moves anything to another queue family.
pub proof fn law_barriers_cover_and_stay(barrier: Barrier)
    ensures
        barrier is Buffer ==> {
            let mapped = barrier::buffer_barrier(barrier);
            &&& mapped.offset == 0
            &&& mapped.size == vk::WHOLE_SIZE
            &&& mapped.src_queue_family_index == mapped.dst_queue_family_index
        },
        barrier is Image ==> {
            let mapped = barrier::image_barrier(barrier);
            mapped.src_queue_family_index == mapped.dst_queue_family_index
        },
{
}

/// The stencil references of front and back faces after a call.
pub open spec fn stencil_after(references: (u32, u32), call: DeviceCall) -> (u32, u32) {
    match call {
        DeviceCall::SetStencilReference { face_mask, reference, .. } => (
            if face_mask & vk::STENCIL_FACE_FRONT != 0 {
                reference
            } else {
                references.0
            },
            if face_mask & vk::STENCIL_FACE_BACK != 0 {
                reference
            } else {
                references.1
            },
        ),
        _ => references,
    }
}

/// Whatever the stencil references were, once the calls of a command that sets
/// them have been issued they are the given ones, whether there was one call or
/// two.
pub proof fn law_stencil_references_are_set(
    raw: usize,
    front: pso::StencilValue,
    back: pso::StencilValue,
    before: (u32, u32),
)
    ensures
        command::stencil_calls(raw, front, back).fold_left(
            before,
            |references: (u32, u32), call: DeviceCall<'static>| stencil_after(references, call),
        ) == (front, back),
{
    let calls = command::stencil_calls(raw, front, back);
    let step = |references: (u32, u32), call: DeviceCall<'static>| stencil_after(references, call);
    assert(3u32 & 1u32 != 0 && 3u32 & 2u32 != 0) by (bit_vector);
    assert(1u32 & 1u32 != 0 && 1u32 & 2u32 == 0) by (bit_vector);
    assert(2u32 & 1u32 == 0 && 2u32 & 2u32 != 0) by (bit_vector);
    reveal_with_fuel(Seq::fold_left, 3);
    if front == back {
        assert(calls.drop_last() =~= Seq::empty());
        assert(calls.fold_left(before, step) == step(before, calls[0]));
    } else {
        assert(calls.drop_last().drop_last() =~= Seq::empty());
        assert(calls.drop_last().last() == calls[0]);
        assert(calls.fold_left(before, step) == step(step(before, calls[0]), calls[1]));
    }
}

/// Things that differ for the caller differ for Vulkan: no two layouts, filters,
/// index types or kinds of subpass contents are taken for one.
pub proof fn law_kinds_are_told_apart(
    layouts: (image::Layout, image::Layout),
    filters: (image::Filter, image::Filter),
    index_types: (buffer::IndexType, buffer::IndexType),
    contents: (com::SubpassContents, com::SubpassContents),
)
    ensures
        conv::image_layout(layouts.0) == conv::image_layout(layouts.1) ==> layouts.0 == layouts.1,
        conv::filter(filters.0) == conv::filter(filters.1) ==> filters.0 == filters.1,
        conv::index_type(index_types.0) == conv::index_type(index_types.1) ==> index_types.0
            == index_types.1,
        command::subpass_contents(contents.0) == command::subpass_contents(contents.1)
            ==> contents.0 == contents.1,
{
}

/// A set of aspects contains another exactly where its mask has all bits of the
/// other's.
pub proof fn law_aspect_masks_follow_the_sets(a: Aspects, b: Aspects)
    ensures
        a.spec_contains(b) <==> conv::image_aspects(a) & conv::image_aspects(b)
            == conv::image_aspects(b),
{
    assert(forall|c: u32, d: u32, s: u32, x: u32, y: u32, z: u32|
        (c == 0 || c == 1) && (d == 0 || d == 2) && (s == 0 || s == 4) && (x == 0 || x == 1) && (y
            == 0 || y == 2) && (z == 0 || z == 4) ==> (((#[trigger] (c | d | s)) & (#[trigger] (x
            | y | z)) == (x | y | z)) <==> ((x == 1 ==> c == 1) && (y == 2 ==> d == 2) && (z == 4
            ==> s == 4)))) by (bit_vector);
    let ca: u32 = if a.color { 1 } else { 0 };
    let da: u32 = if a.depth { 2 } else { 0 };
    let sa: u32 = if a.stencil { 4 } else { 0 };
    let cb: u32 = if b.color { 1 } else { 0 };
    let db: u32 = if b.depth { 2 } else { 0 };
    let sb: u32 = if b.stencil { 4 } else { 0 };
    assert(conv::image_aspects(a) == ca | da | sa);
    assert(conv::image_aspects(b) == cb | db | sb);
}

/// An image that may be cleared to a colour has no aspect in its mask but colour;
/// one that may be cleared to a depth and a stencil has not the colour aspect.
pub proof fn law_clears_touch_their_aspects_only(aspects: Aspects)
    ensures
        Aspects::spec_color().spec_contains(aspects) ==> conv::image_aspects(aspects)
            & vk::IMAGE_ASPECT_COLOR == conv::image_aspects(aspects),
        Aspects::spec_depth_stencil().spec_contains(aspects) ==> conv::image_aspects(aspects)
            & vk::IMAGE_ASPECT_COLOR == 0,
{
    let d: u32 = if aspects.depth { 2 } else { 0 };
    let s: u32 = if aspects.stencil { 4 } else { 0 };
    assert((0u32 | 0u32 | 0u32) & 1u32 == (0u32 | 0u32 | 0u32)) by (bit_vector);
    assert((1u32 | 0u32 | 0u32) & 1u32 == (1u32 | 0u32 | 0u32)) by (bit_vector);
    assert((0u32 | d | s) & 1u32 == 0) by (bit_vector)
        requires
            d == 0 || d == 2,
            s == 0 || s == 4,
    ;
}

/// To clear depth and stencil of an attachment in one go is to clear the depth and
/// to clear the stencil: the aspects are those of both, the depth is that of the
/// first and the stencil that of the second.
pub proof fn law_depth_stencil_clear_is_both(value: com::ClearDepthStencil)
    ensures
        ({
            let both = clear::clear_attachment(com::AttachmentClear::DepthStencil(value));
            let depth = clear::clear_attachment(com::AttachmentClear::Depth(value.depth));
            let stencil = clear::clear_attachment(com::AttachmentClear::Stencil(value.stencil));
            &&& both.aspect_mask == depth.aspect_mask | stencil.aspect_mask
            &&& both.clear_value->DepthStencil_0.depth == depth.clear_value->DepthStencil_0.depth
            &&& both.clear_value->DepthStencil_0.stencil
                == stencil.clear_value->DepthStencil_0.stencil
        }),
{
}

/// Constants of the compute stage are constants of a shader stage: as a command for
/// the stages of a mask that holds compute alone, it gives the same call.
pub proof fn law_compute_constants_are_constants<'a>(
    compute: DeviceCall<'a>,
    graphics: DeviceCall<'a>,
    raw: usize,
    layout: n::PipelineLayout,
    stages: pso::ShaderStageFlags,
    offset: u32,
    constants: &'a [u32],
)
    requires
        stages.bits == vk::SHADER_STAGE_COMPUTE,
        compute == command::push_constants_call(
            raw,
            layout,
            (pso::ShaderStageFlags { bits: vk::SHADER_STAGE_COMPUTE }),
            offset,
            constants,
        ),
        graphics == command::push_constants_call(raw, layout, stages, offset, constants),
    ensures
        compute == graphics,
{
}

/// Words with the same bytes are the same.
proof fn lemma_digits_tell_the_word(x: u32, y: u32)
    requires
        constants::digits(x) == constants::digits(y),
    ensures
        x == y,
{
    let (a, b) = (constants::digits(x), constants::digits(y));
    assert(x / 16777216 < 256) by (bit_vector);
    assert(y / 16777216 < 256) by (bit_vector);
    assert(a[0] == b[0] && a[1] == b[1] && a[2] == b[2] && a[3] == b[3]);
    assert(x == y) by (bit_vector)
        requires
            x % 256 == y % 256,
            x / 256 % 256 == y / 256 % 256,
            x / 65536 % 256 == y / 65536 % 256,
            x / 16777216 == y / 16777216,
    ;
}

/// Each constant takes four bytes, and the bytes tell the constants: different words
/// have different bytes, in either byte order.
pub proof fn law_bytes_tell_the_constants(first: Seq<u32>, second: Seq<u32>, order: ByteOrder)
    ensures
        bytes_of(first, order).len() == 4 * first.len(),
        bytes_of(first, order) == bytes_of(second, order) ==> first == second,
{
    let (a, b) = (bytes_of(first, order), bytes_of(second, order));
    if a == b {
        assert(a.len() == b.len());
        assert forall|i: int| 0 <= i < first.len() implies first[i] == second[i] by {
            assert(a[4 * i] == b[4 * i]);
            assert(a[4 * i + 1] == b[4 * i + 1]);
            assert(a[4 * i + 2] == b[4 * i + 2]);
            assert(a[4 * i + 3] == b[4 * i + 3]);
            assert(constants::digits(first[i]) =~= constants::digits(second[i]));
            lemma_digits_tell_the_word(first[i], second[i]);
        }
        assert(first =~= second);
    }
}

/// The bytes of constants after a call, by their place, on a machine with this byte
/// order: a call that pushes constants writes its bytes from its offset on.
pub open spec fn constants_after(
    memory: spec_fn(int) -> u8,
    call: DeviceCall,
    order: ByteOrder,
) -> spec_fn(int) -> u8 {
    let bytes = call.pushed_bytes(order);
    match call {
        DeviceCall::PushConstants { offset, .. } => |place: int|
            if offset <= place < offset + bytes.len() {
                bytes[place - offset]
            } else {
                memory(place)
            },
        _ => memory,
    }
}

/// Constants can be pushed in parts: to push two lists joined is to push the first,
/// and then the second from the word behind the first on. The bytes handed over are
/// those of the first followed by those of the second, and whatever constants there
/// were before, the same ones are there after.
pub proof fn law_constants_can_be_pushed_in_parts(
    memory: spec_fn(int) -> u8,
    order: ByteOrder,
    raw: usize,
    layout: n::PipelineLayout,
    stages: pso::ShaderStageFlags,
    offset: u32,
    behind: u32,
    first: &[u32],
    second: &[u32],
    joined: &[u32],
)
    requires
        joined@ == first@ + second@,
        behind == offset + first@.len(),
        behind * 4 <= u32::MAX,
    ensures
        ({
            let whole = command::push_constants_call(raw, layout, stages, offset, joined);
            let one = command::push_constants_call(raw, layout, stages, offset, first);
            let two = command::push_constants_call(raw, layout, stages, behind, second);
            &&& whole.pushed_bytes(order) == one.pushed_bytes(order) + two.pushed_bytes(order)
            &&& two->PushConstants_offset == one->PushConstants_offset + one.pushed_bytes(
                order,
            ).len()
            &&& constants_after(memory, whole, order) == constants_after(
                constants_after(memory, one, order),
                two,
                order,
            )
        }),
{
    let whole = command::push_constants_call(raw, layout, stages, offset, joined);
    let one = command::push_constants_call(raw, layout, stages, offset, first);
    let two = command::push_constants_call(raw, layout, stages, behind, second);
    assert(whole.pushed_bytes(order) =~= one.pushed_bytes(order) + two.pushed_bytes(order));
    assert(constants_after(memory, whole, order) =~= constants_after(
        constants_after(memory, one, order),
        two,
        order,
    ));
}

/// Descriptor sets are bound for graphics and for compute alike: the two calls
/// differ in the kind of pipeline, and in nothing else.
pub proof fn law_bind_points_differ_in_kind_only(
    graphics: DeviceCall,
    compute: DeviceCall,
    command_buffer: CommandBuffer,
    layout: n::PipelineLayout,
    first_set: usize,
    sets: Seq<n::DescriptorSet>,
)
    requires
        command::binds_descriptor_sets(
            graphics,
            command_buffer,
            vk::PipelineBindPoint::Graphics,
            layout,
            first_set,
            sets,
        ),
        command::binds_descriptor_sets(
            compute,
            command_buffer,
            vk::PipelineBindPoint::Compute,
            layout,
            first_set,
            sets,
        ),
    ensures
        graphics->BindDescriptorSets_pipeline_bind_point
            != compute->BindDescriptorSets_pipeline_bind_point,
        graphics.target() == compute.target(),
        graphics->BindDescriptorSets_layout == compute->BindDescriptorSets_layout,
        graphics->first_set == compute->first_set,
        graphics->descriptor_sets@ == compute->descriptor_sets@,
        graphics->dynamic_offsets@ == compute->dynamic_offsets@,
{
}

/// Regions that take texels from a buffer to an image take them back: a copy the
/// other way, between the same two and with the same regions, carries the same
/// list.
pub proof fn law_texels_go_both_ways(
    there: DeviceCall,
    back: DeviceCall,
    command_buffer: CommandBuffer,
    buffer: n::Buffer,
    image: n::Image,
    layouts: (image::Layout, image::Layout),
    texels: Seq<com::BufferImageCopy>,
)
    requires
        command::copies_buffer_to_image(there, command_buffer, buffer, image, layouts.0, texels),
        command::copies_image_to_buffer(back, command_buffer, image, layouts.1, buffer, texels),
    ensures
        there->CopyBufferToImage_regions@ == back->CopyImageToBuffer_regions@,
        there->CopyBufferToImage_src_buffer == back->CopyImageToBuffer_dst_buffer,
        there->CopyBufferToImage_dst_image == back->CopyImageToBuffer_src_image,
{
}

/// A call that records a command cannot fail; one that changes the state of the
/// command buffer fails exactly where the device reports an error, with its code.
pub proof fn law_only_control_can_fail(call: DeviceCall, raw: usize, report: Result<(), i32>)
    ensures
        call.records_into(raw) ==> call.outcome(report) == Settled::Recorded,
        call.controls(raw) ==> (call.outcome(report) == Settled::Recorded <==> report is Ok),
        call.controls(raw) ==> (report matches Err(code) ==> call.outcome(report)
            == Settled::Failed(code)),
{
}

/// Regions are taken one by one: a list of regions in two parts gives what the
/// first part gives, followed by what the second gives. So no region is lost, none
/// is told twice, and they keep their order.
pub proof fn law_regions_are_taken_one_by_one(
    buffers: (Seq<com::BufferCopy>, Seq<com::BufferCopy>),
    images: (Seq<com::ImageCopy>, Seq<com::ImageCopy>),
    resolves: (Seq<com::ImageResolve>, Seq<com::ImageResolve>),
    blits: (Seq<com::ImageBlit>, Seq<com::ImageBlit>),
    texels: (Seq<com::BufferImageCopy>, Seq<com::BufferImageCopy>),
)
    ensures
        regions::buffer_copies(buffers.0 + buffers.1) == regions::buffer_copies(buffers.0)
            + regions::buffer_copies(buffers.1),
        regions::image_copies(images.0 + images.1) == regions::image_copies(images.0)
            + regions::image_copies(images.1),
        regions::image_resolves(resolves.0 + resolves.1) == regions::image_resolves(resolves.0)
            + regions::image_resolves(resolves.1),
        regions::image_blits(blits.0 + blits.1) == regions::image_blits(blits.0)
            + regions::image_blits(blits.1),
        regions::buffer_image_copies(texels.0 + texels.1) == regions::buffer_image_copies(texels.0)
            + regions::buffer_image_copies(texels.1),
        regions::buffer_copies(buffers.0).len() == buffers.0.len(),
        regions::image_copies(images.0).len() == images.0.len(),
        regions::image_resolves(resolves.0).len() == resolves.0.len(),
        regions::image_blits(blits.0).len() == blits.0.len(),
        regions::buffer_image_copies(texels.0).len() == texels.0.len(),
{
}

/// Attachments and rectangles to clear are taken one by one, as regions are.
pub proof fn law_clears_are_taken_one_by_one(
    clears: (Seq<com::AttachmentClear>, Seq<com::AttachmentClear>),
    rects: (Seq<pso::Rect>, Seq<pso::Rect>),
)
    ensures
        clear::clear_attachments(clears.0 + clears.1) == clear::clear_attachments(clears.0)
            + clear::clear_attachments(clears.1),
        clear::clear_rects(rects.0 + rects.1) == clear::clear_rects(rects.0) + clear::clear_rects(
            rects.1,
        ),
        clear::clear_attachments(clears.0).len() == clears.0.len(),
        clear::clear_rects(rects.0).len() == rects.0.len(),
{
}

/// A blit with its bounds turned round is the blit with its corners swapped.
pub proof fn law_blit_bounds_turn_round(blit: com::ImageBlit, turned: com::ImageBlit)
    requires
        turned.src_subresource == blit.src_subresource,
        turned.dst_subresource == blit.dst_subresource,
        turned.src_bounds.start == blit.src_bounds.end,
        turned.src_bounds.end == blit.src_bounds.start,
        turned.dst_bounds.start == blit.dst_bounds.end,
        turned.dst_bounds.end == blit.dst_bounds.start,
    ensures
        regions::image_blit(turned).src_offsets@ == regions::image_blit(
            blit,
        ).src_offsets@.reverse(),
        regions::image_blit(turned).dst_offsets@ == regions::image_blit(
            blit,
        ).dst_offsets@.reverse(),
{
}

} // verus!
