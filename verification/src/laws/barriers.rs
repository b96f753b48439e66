//! What each barrier comes to, and where it stands.
//!
//! A barrier has its place in the list of what it is on: behind as many as were given
//! before it on the same kind of thing.
use super::values;
use crate::barrier;
use crate::hal::image::Layout;
use crate::hal::memory::Barrier;
use crate::vk;
use vstd::prelude::*;

verus! {

/// A barrier stands in its list behind those of its kind that were given before it.
proof fn lemma_place(barriers: Seq<Barrier>, i: int)
    requires
        0 <= i < barriers.len(),
    ensures
        barriers[i] is Image ==> {
            let place = barrier::image_barriers(barriers.take(i)).len();
            &&& place < barrier::image_barriers(barriers).len()
            &&& barrier::image_barriers(barriers)[place as int] == barrier::image_barrier(
                barriers[i],
            )
        },
        barriers[i] is Buffer ==> {
            let place = barrier::buffer_barriers(barriers.take(i)).len();
            &&& place < barrier::buffer_barriers(barriers).len()
            &&& barrier::buffer_barriers(barriers)[place as int] == barrier::buffer_barrier(
                barriers[i],
            )
        },
        barriers[i] is AllBuffers || barriers[i] is AllImages ==> {
            let place = barrier::global_barriers(barriers.take(i)).len();
            &&& place < barrier::global_barriers(barriers).len()
            &&& barrier::global_barriers(barriers)[place as int] == barrier::global_barrier(
                barriers[i],
            )
        },
    decreases barriers.len(),
{
    let before = barriers.drop_last();
    assert(before.push(barriers.last()) =~= barriers);
    barrier::lemma_one_more(before, barriers.last());
    if i < before.len() {
        lemma_place(before, i);
        assert(before.take(i) =~= barriers.take(i));
    } else {
        assert(barriers.take(i) =~= before);
    }
}

/// As many barriers on all memory, on buffers and on images come out as were given.
pub proof fn law_as_many_of_each_kind(barriers: Seq<Barrier>)
    ensures
        barrier::global_barriers(barriers).len() == barriers.filter(
            |b: Barrier| b is AllBuffers || b is AllImages,
        ).len(),
        barrier::buffer_barriers(barriers).len() == barriers.filter(
            |b: Barrier| b is Buffer,
        ).len(),
        barrier::image_barriers(barriers).len() == barriers.filter(|b: Barrier| b is Image).len(),
    decreases barriers.len(),
{
    reveal(Seq::filter);
    if barriers.len() > 0 {
        let before = barriers.drop_last();
        law_as_many_of_each_kind(before);
        assert(before.push(barriers.last()) =~= barriers);
        barrier::lemma_one_more(before, barriers.last());
    }
}

/// Every barrier stands in its list behind as many as were given before it on the same
/// kind of thing.
pub(crate) proof fn lemma_all_places(barriers: Seq<Barrier>)
    ensures
        forall|i: int|
            0 <= i < barriers.len() && (#[trigger] barriers[i]) is Image ==> {
                let place = barriers.take(i).filter(|b: Barrier| b is Image).len();
                &&& place < barrier::image_barriers(barriers).len()
                &&& barrier::image_barriers(barriers)[place as int] == barrier::image_barrier(
                    barriers[i],
                )
            },
        forall|i: int|
            0 <= i < barriers.len() && (#[trigger] barriers[i]) is Buffer ==> {
                let place = barriers.take(i).filter(|b: Barrier| b is Buffer).len();
                &&& place < barrier::buffer_barriers(barriers).len()
                &&& barrier::buffer_barriers(barriers)[place as int] == barrier::buffer_barrier(
                    barriers[i],
                )
            },
        forall|i: int|
            0 <= i < barriers.len() && ((#[trigger] barriers[i]) is AllBuffers
                || barriers[i] is AllImages) ==> {
                let place = barriers.take(i).filter(
                    |b: Barrier| b is AllBuffers || b is AllImages,
                ).len();
                &&& place < barrier::global_barriers(barriers).len()
                &&& barrier::global_barriers(barriers)[place as int] == barrier::global_barrier(
                    barriers[i],
                )
            },
{
    assert forall|i: int|
        0 <= i < barriers.len() && (#[trigger] barriers[i]) is Image implies ({
        let place = barriers.take(i).filter(|b: Barrier| b is Image).len();
        &&& place < barrier::image_barriers(barriers).len()
        &&& barrier::image_barriers(barriers)[place as int] == barrier::image_barrier(barriers[i])
    }) by {
        lemma_place(barriers, i);
        law_as_many_of_each_kind(barriers.take(i));
    }
    assert forall|i: int|
        0 <= i < barriers.len() && (#[trigger] barriers[i]) is Buffer implies ({
        let place = barriers.take(i).filter(|b: Barrier| b is Buffer).len();
        &&& place < barrier::buffer_barriers(barriers).len()
        &&& barrier::buffer_barriers(barriers)[place as int] == barrier::buffer_barrier(barriers[i])
    }) by {
        lemma_place(barriers, i);
        law_as_many_of_each_kind(barriers.take(i));
    }
    assert forall|i: int|
        0 <= i < barriers.len() && ((#[trigger] barriers[i]) is AllBuffers
            || barriers[i] is AllImages) implies ({
        let place = barriers.take(i).filter(|b: Barrier| b is AllBuffers || b is AllImages).len();
        &&& place < barrier::global_barriers(barriers).len()
        &&& barrier::global_barriers(barriers)[place as int] == barrier::global_barrier(barriers[i])
    }) by {
        lemma_place(barriers, i);
        law_as_many_of_each_kind(barriers.take(i));
    }
}

/// A barrier on all memory has its place among those on all memory, and the accesses
/// before and after it are those given.
pub proof fn law_global_barriers(barriers: Seq<Barrier>, i: int)
    requires
        0 <= i < barriers.len(),
        barriers[i] is AllBuffers || barriers[i] is AllImages,
    ensures
        ({
            let place = barriers.take(i).filter(
                |b: Barrier| b is AllBuffers || b is AllImages,
            ).len();
            let mapped = barrier::global_barriers(barriers)[place as int];
            &&& place < barrier::global_barriers(barriers).len()
            &&& mapped.s_type is MemoryBarrier
            &&& mapped.src_access_mask == (match barriers[i] {
                Barrier::AllBuffers(access) => access.start.bits,
                Barrier::AllImages(access) => access.start.bits,
                _ => 0,
            })
            &&& mapped.dst_access_mask == (match barriers[i] {
                Barrier::AllBuffers(access) => access.end.bits,
                Barrier::AllImages(access) => access.end.bits,
                _ => 0,
            })
        }),
{
    lemma_place(barriers, i);
    law_as_many_of_each_kind(barriers.take(i));
}

/// A barrier on a buffer has its place among those on buffers. It is on the buffer given,
/// from its first byte to its last; the accesses before and after it are those given, and
/// the buffer stays with its queue family.
pub proof fn law_buffer_barriers(barriers: Seq<Barrier>, i: int)
    requires
        0 <= i < barriers.len(),
        barriers[i] is Buffer,
    ensures
        ({
            let place = barriers.take(i).filter(|b: Barrier| b is Buffer).len();
            let mapped = barrier::buffer_barriers(barriers)[place as int];
            &&& place < barrier::buffer_barriers(barriers).len()
            &&& mapped.s_type is BufferMemoryBarrier
            &&& mapped.src_access_mask == barriers[i]->Buffer_states.start.bits
            &&& mapped.dst_access_mask == barriers[i]->Buffer_states.end.bits
            &&& mapped.src_queue_family_index == 0xffff_ffff
            &&& mapped.dst_queue_family_index == 0xffff_ffff
            &&& mapped.buffer == barriers[i]->Buffer_target.raw
            &&& mapped.offset == 0
            &&& mapped.size == 0xffff_ffff_ffff_ffff
        }),
{
    lemma_place(barriers, i);
    law_as_many_of_each_kind(barriers.take(i));
}

/// A barrier on an image has its place among those on images. It is on the levels, layers
/// and aspects given of the image given; the accesses and the layout before it are those
/// at the start of the states, the accesses and the layout after it those at their end,
/// and the image stays with its queue family.
pub proof fn law_image_barriers(barriers: Seq<Barrier>, i: int)
    requires
        0 <= i < barriers.len(),
        barriers[i] is Image,
        barriers[i]->range.levels.start <= barriers[i]->range.levels.end,
        barriers[i]->range.layers.start <= barriers[i]->range.layers.end,
    ensures
        ({
            let place = barriers.take(i).filter(|b: Barrier| b is Image).len();
            let mapped = barrier::image_barriers(barriers)[place as int];
            let range = mapped.subresource_range;
            let asked = barriers[i]->range;
            &&& place < barrier::image_barriers(barriers).len()
            &&& mapped.s_type is ImageMemoryBarrier
            &&& mapped.src_access_mask == barriers[i]->Image_states.start.0.bits
            &&& mapped.dst_access_mask == barriers[i]->Image_states.end.0.bits
            &&& mapped.old_layout == (match barriers[i]->Image_states.start.1 {
                Layout::General => vk::ImageLayout::General,
                Layout::ColorAttachmentOptimal => vk::ImageLayout::ColorAttachmentOptimal,
                Layout::DepthStencilAttachmentOptimal =>
                    vk::ImageLayout::DepthStencilAttachmentOptimal,
                Layout::DepthStencilReadOnlyOptimal => vk::ImageLayout::DepthStencilReadOnlyOptimal,
                Layout::ShaderReadOnlyOptimal => vk::ImageLayout::ShaderReadOnlyOptimal,
                Layout::TransferSrcOptimal => vk::ImageLayout::TransferSrcOptimal,
                Layout::TransferDstOptimal => vk::ImageLayout::TransferDstOptimal,
                Layout::Undefined => vk::ImageLayout::Undefined,
                Layout::Preinitialized => vk::ImageLayout::Preinitialized,
                Layout::Present => vk::ImageLayout::PresentSrcKhr,
            })
            &&& mapped.new_layout == (match barriers[i]->Image_states.end.1 {
                Layout::General => vk::ImageLayout::General,
                Layout::ColorAttachmentOptimal => vk::ImageLayout::ColorAttachmentOptimal,
                Layout::DepthStencilAttachmentOptimal =>
                    vk::ImageLayout::DepthStencilAttachmentOptimal,
                Layout::DepthStencilReadOnlyOptimal => vk::ImageLayout::DepthStencilReadOnlyOptimal,
                Layout::ShaderReadOnlyOptimal => vk::ImageLayout::ShaderReadOnlyOptimal,
                Layout::TransferSrcOptimal => vk::ImageLayout::TransferSrcOptimal,
                Layout::TransferDstOptimal => vk::ImageLayout::TransferDstOptimal,
                Layout::Undefined => vk::ImageLayout::Undefined,
                Layout::Preinitialized => vk::ImageLayout::Preinitialized,
                Layout::Present => vk::ImageLayout::PresentSrcKhr,
            })
            &&& mapped.src_queue_family_index == 0xffff_ffff
            &&& mapped.dst_queue_family_index == 0xffff_ffff
            &&& mapped.image == barriers[i]->Image_target.raw
            &&& range.base_mip_level == asked.levels.start
            &&& range.base_mip_level + range.level_count == asked.levels.end
            &&& range.base_array_layer == asked.layers.start
            &&& range.base_array_layer + range.layer_count == asked.layers.end
            &&& range.aspect_mask == (if asked.aspects.color {
                1int
            } else {
                0
            }) + (if asked.aspects.depth {
                2int
            } else {
                0
            }) + (if asked.aspects.stencil {
                4int
            } else {
                0
            })
        }),
{
    lemma_place(barriers, i);
    law_as_many_of_each_kind(barriers.take(i));
    values::law_levels_and_layers_are_those_named(barriers[i]->range);
}

/// Barriers that find an image in different layouts say so, and so do barriers that leave
/// it in different layouts, whatever else they share.
pub proof fn law_layout_changes_are_told_apart(barriers: Seq<Barrier>, i: int, j: int)
    requires
        0 <= i < barriers.len(),
        0 <= j < barriers.len(),
        barriers[i] is Image,
        barriers[j] is Image,
    ensures
        ({
            let one = barrier::image_barriers(barriers)[barriers.take(i).filter(
                |b: Barrier| b is Image,
            ).len() as int];
            let other = barrier::image_barriers(barriers)[barriers.take(j).filter(
                |b: Barrier| b is Image,
            ).len() as int];
            &&& one.old_layout == other.old_layout <==> barriers[i]->Image_states.start.1
                == barriers[j]->Image_states.start.1
            &&& one.new_layout == other.new_layout <==> barriers[i]->Image_states.end.1
                == barriers[j]->Image_states.end.1
        }),
{
    lemma_place(barriers, i);
    lemma_place(barriers, j);
    law_as_many_of_each_kind(barriers.take(i));
    law_as_many_of_each_kind(barriers.take(j));
}

} // verus!
