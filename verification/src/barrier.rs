//! Memory barriers, sorted by what they are on.
//!
//! Vulkan takes barriers in three lists: on all memory, on buffers and on images.
//! Each list keeps the order in which its barriers were given.
use crate::conv;
use crate::hal::memory::Barrier;
use crate::small::{self, Small4};
use crate::vk;
use vstd::prelude::*;

verus! {

/// The barrier is on the memory of all buffers or of all images.
pub open spec fn is_global(barrier: Barrier) -> bool {
    barrier is AllBuffers || barrier is AllImages
}

/// A barrier on all memory, with the accesses of `barrier`.
pub open spec fn global_barrier(barrier: Barrier) -> vk::MemoryBarrier {
    if barrier is AllBuffers {
        vk::MemoryBarrier {
            s_type: vk::StructureType::MemoryBarrier,
            src_access_mask: barrier->AllBuffers_0.start.bits,
            dst_access_mask: barrier->AllBuffers_0.end.bits,
        }
    } else {
        vk::MemoryBarrier {
            s_type: vk::StructureType::MemoryBarrier,
            src_access_mask: barrier->AllImages_0.start.bits,
            dst_access_mask: barrier->AllImages_0.end.bits,
        }
    }
}

/// A barrier on all of the target buffer, with the accesses of `barrier`, which
/// stays with its queue family.
pub open spec fn buffer_barrier(barrier: Barrier) -> vk::BufferMemoryBarrier {
    vk::BufferMemoryBarrier {
        s_type: vk::StructureType::BufferMemoryBarrier,
        src_access_mask: barrier->Buffer_states.start.bits,
        dst_access_mask: barrier->Buffer_states.end.bits,
        src_queue_family_index: vk::QUEUE_FAMILY_IGNORED,
        dst_queue_family_index: vk::QUEUE_FAMILY_IGNORED,
        buffer: barrier->Buffer_target.raw,
        offset: 0,
        size: vk::WHOLE_SIZE,
    }
}

/// A barrier on the given part of the target image, with the accesses and layouts
/// of `barrier`, which stays with its queue family.
pub open spec fn image_barrier(barrier: Barrier) -> vk::ImageMemoryBarrier {
    vk::ImageMemoryBarrier {
        s_type: vk::StructureType::ImageMemoryBarrier,
        src_access_mask: barrier->Image_states.start.0.bits,
        dst_access_mask: barrier->Image_states.end.0.bits,
        old_layout: conv::image_layout(barrier->Image_states.start.1),
        new_layout: conv::image_layout(barrier->Image_states.end.1),
        src_queue_family_index: vk::QUEUE_FAMILY_IGNORED,
        dst_queue_family_index: vk::QUEUE_FAMILY_IGNORED,
        image: barrier->Image_target.raw,
        subresource_range: conv::subresource_range(barrier->range),
    }
}

/// The barriers on all memory, in their order.
pub open spec fn global_barriers(barriers: Seq<Barrier>) -> Seq<vk::MemoryBarrier> {
    barriers.filter(|b: Barrier| is_global(b)).map_values(|b: Barrier| global_barrier(b))
}

/// The barriers on buffers, in their order.
pub open spec fn buffer_barriers(barriers: Seq<Barrier>) -> Seq<vk::BufferMemoryBarrier> {
    barriers.filter(|b: Barrier| b is Buffer).map_values(|b: Barrier| buffer_barrier(b))
}

/// The barriers on images, in their order.
pub open spec fn image_barriers(barriers: Seq<Barrier>) -> Seq<vk::ImageMemoryBarrier> {
    barriers.filter(|b: Barrier| b is Image).map_values(|b: Barrier| image_barrier(b))
}

/// Barriers by what they are on.
pub struct SortedBarriers {
    pub global: Small4<vk::MemoryBarrier>,
    pub buffers: Small4<vk::BufferMemoryBarrier>,
    pub images: Small4<vk::ImageMemoryBarrier>,
}

/// One more barrier at the end goes to the end of the list that it belongs to,
/// and to no other.
pub(crate) proof fn lemma_one_more(before: Seq<Barrier>, last: Barrier)
    ensures
        global_barriers(before.push(last)) == (if is_global(last) {
            global_barriers(before).push(global_barrier(last))
        } else {
            global_barriers(before)
        }),
        buffer_barriers(before.push(last)) == (if last is Buffer {
            buffer_barriers(before).push(buffer_barrier(last))
        } else {
            buffer_barriers(before)
        }),
        image_barriers(before.push(last)) == (if last is Image {
            image_barriers(before).push(image_barrier(last))
        } else {
            image_barriers(before)
        }),
{
    reveal(Seq::filter);
    assert(before.push(last).drop_last() =~= before);
}

/// Sorts barriers by what they are on and puts them in Vulkan's terms.
pub fn sort_barriers(barriers: &[Barrier]) -> (sorted: SortedBarriers)
    requires
        forall|i: int| 0 <= i < barriers@.len() ==> (#[trigger] barriers@[i]).wf(),
    ensures
        sorted.global@ == global_barriers(barriers@),
        sorted.buffers@ == buffer_barriers(barriers@),
        sorted.images@ == image_barriers(barriers@),
{
    let mut global: Small4<vk::MemoryBarrier> = small::no_memory_barriers();
    let mut buffers: Small4<vk::BufferMemoryBarrier> = small::no_buffer_memory_barriers();
    let mut images: Small4<vk::ImageMemoryBarrier> = small::no_image_memory_barriers();
    proof {
        reveal(Seq::filter);
        assert(barriers@.take(0) =~= Seq::empty());
    }
    let mut i: usize = 0;
    while i < barriers.len()
        invariant
            i <= barriers@.len(),
            forall|k: int| 0 <= k < barriers@.len() ==> (#[trigger] barriers@[k]).wf(),
            global@ == global_barriers(barriers@.take(i as int)),
            buffers@ == buffer_barriers(barriers@.take(i as int)),
            images@ == image_barriers(barriers@.take(i as int)),
        decreases barriers@.len() - i,
    {
        proof {
            assert(barriers@.take(i + 1) =~= barriers@.take(i as int).push(barriers@[i as int]));
            lemma_one_more(barriers@.take(i as int), barriers@[i as int]);
        }
        match &barriers[i] {
            Barrier::AllBuffers(access) => {
                global.push(
                    vk::MemoryBarrier {
                        s_type: vk::StructureType::MemoryBarrier,
                        src_access_mask: access.start.bits,
                        dst_access_mask: access.end.bits,
                    },
                );
            },
            Barrier::AllImages(access) => {
                global.push(
                    vk::MemoryBarrier {
                        s_type: vk::StructureType::MemoryBarrier,
                        src_access_mask: access.start.bits,
                        dst_access_mask: access.end.bits,
                    },
                );
            },
            Barrier::Buffer { states, target } => {
                buffers.push(
                    vk::BufferMemoryBarrier {
                        s_type: vk::StructureType::BufferMemoryBarrier,
                        src_access_mask: states.start.bits,
                        dst_access_mask: states.end.bits,
                        src_queue_family_index: vk::queue_family_ignored(),
                        dst_queue_family_index: vk::queue_family_ignored(),
                        buffer: target.raw,
                        offset: 0,
                        size: vk::whole_size(),
                    },
                );
            },
            Barrier::Image { states, target, range } => {
                let subresource_range = conv::map_subresource_range(range);
                images.push(
                    vk::ImageMemoryBarrier {
                        s_type: vk::StructureType::ImageMemoryBarrier,
                        src_access_mask: states.start.0.bits,
                        dst_access_mask: states.end.0.bits,
                        old_layout: conv::map_image_layout(states.start.1),
                        new_layout: conv::map_image_layout(states.end.1),
                        src_queue_family_index: vk::queue_family_ignored(),
                        dst_queue_family_index: vk::queue_family_ignored(),
                        image: target.raw,
                        subresource_range,
                    },
                );
            },
        }
        i = i + 1;
    }
    assert(barriers@.take(i as int) =~= barriers@);
    SortedBarriers { global, buffers, images }
}

} // verus!
