//! Regions of copies, resolves and blits, in Vulkan's terms.
//!
//! Each list of regions maps region by region and keeps the order.
use crate::conv;
use crate::hal::command as com;
use crate::laws::values;
use crate::native::Image;
use crate::small::{self, Small16, Small4};
use crate::vk;
use vstd::prelude::*;

verus! {

/// The same bytes.
pub open spec fn buffer_copy(region: com::BufferCopy) -> vk::BufferCopy {
    vk::BufferCopy { src_offset: region.src, dst_offset: region.dst, size: region.size }
}

/// The same bytes, region by region.
pub open spec fn buffer_copies(items: Seq<com::BufferCopy>) -> Seq<vk::BufferCopy> {
    items.map_values(|item: com::BufferCopy| buffer_copy(item))
}

/// Maps the regions of a copy between buffers.
pub fn map_buffer_copies(regions: &[com::BufferCopy]) -> (mapped: Small16<vk::BufferCopy>)
    ensures
        mapped@ == buffer_copies(regions@),
{
    let mut mapped: Small16<vk::BufferCopy> = small::no_buffer_copies();
    let mut i: usize = 0;
    while i < regions.len()
        invariant
            i <= regions@.len(),
            mapped@ == buffer_copies(regions@.take(i as int)),
        decreases regions@.len() - i,
    {
        let region = &regions[i];
        mapped.push(
            vk::BufferCopy { src_offset: region.src, dst_offset: region.dst, size: region.size },
        );
        assert(regions@.take(i + 1) =~= regions@.take(i as int).push(regions@[i as int]));
        i = i + 1;
    }
    assert(regions@.take(i as int) =~= regions@);
    mapped
}

/// The same texels of the same layers.
pub open spec fn image_copy(region: com::ImageCopy) -> vk::ImageCopy {
    vk::ImageCopy {
        src_subresource: conv::subresource_layers(region.src_subresource),
        src_offset: conv::offset(region.src_offset),
        dst_subresource: conv::subresource_layers(region.dst_subresource),
        dst_offset: conv::offset(region.dst_offset),
        extent: conv::extent(region.extent),
    }
}

/// The same texels, region by region.
pub open spec fn image_copies(items: Seq<com::ImageCopy>) -> Seq<vk::ImageCopy> {
    items.map_values(|item: com::ImageCopy| image_copy(item))
}

/// Maps the regions of a copy between images.
pub fn map_image_copies(regions: &[com::ImageCopy]) -> (mapped: Small16<vk::ImageCopy>)
    requires
        forall|i: int| 0 <= i < regions@.len() ==> (#[trigger] regions@[i]).wf(),
    ensures
        mapped@ == image_copies(regions@),
{
    let mut mapped: Small16<vk::ImageCopy> = small::no_image_copies();
    let mut i: usize = 0;
    while i < regions.len()
        invariant
            i <= regions@.len(),
            forall|k: int| 0 <= k < regions@.len() ==> (#[trigger] regions@[k]).wf(),
            mapped@ == image_copies(regions@.take(i as int)),
        decreases regions@.len() - i,
    {
        let region = &regions[i];
        mapped.push(
            vk::ImageCopy {
                src_subresource: conv::map_subresource_layers(&region.src_subresource),
                src_offset: conv::map_offset(region.src_offset),
                dst_subresource: conv::map_subresource_layers(&region.dst_subresource),
                dst_offset: conv::map_offset(region.dst_offset),
                extent: conv::map_extent(region.extent),
            },
        );
        assert(regions@.take(i + 1) =~= regions@.take(i as int).push(regions@[i as int]));
        i = i + 1;
    }
    assert(regions@.take(i as int) =~= regions@);
    mapped
}

/// The same texels of the same layers.
pub open spec fn image_resolve(region: com::ImageResolve) -> vk::ImageResolve {
    vk::ImageResolve {
        src_subresource: conv::subresource_layers(region.src_subresource),
        src_offset: conv::offset(region.src_offset),
        dst_subresource: conv::subresource_layers(region.dst_subresource),
        dst_offset: conv::offset(region.dst_offset),
        extent: conv::extent(region.extent),
    }
}

/// The same texels, region by region.
pub open spec fn image_resolves(items: Seq<com::ImageResolve>) -> Seq<vk::ImageResolve> {
    items.map_values(|item: com::ImageResolve| image_resolve(item))
}

/// Maps the regions of a resolve.
pub fn map_image_resolves(regions: &[com::ImageResolve]) -> (mapped: Small4<vk::ImageResolve>)
    requires
        forall|i: int| 0 <= i < regions@.len() ==> (#[trigger] regions@[i]).wf(),
    ensures
        mapped@ == image_resolves(regions@),
{
    let mut mapped: Small4<vk::ImageResolve> = small::no_image_resolves();
    let mut i: usize = 0;
    while i < regions.len()
        invariant
            i <= regions@.len(),
            forall|k: int| 0 <= k < regions@.len() ==> (#[trigger] regions@[k]).wf(),
            mapped@ == image_resolves(regions@.take(i as int)),
        decreases regions@.len() - i,
    {
        let region = &regions[i];
        mapped.push(
            vk::ImageResolve {
                src_subresource: conv::map_subresource_layers(&region.src_subresource),
                src_offset: conv::map_offset(region.src_offset),
                dst_subresource: conv::map_subresource_layers(&region.dst_subresource),
                dst_offset: conv::map_offset(region.dst_offset),
                extent: conv::map_extent(region.extent),
            },
        );
        assert(regions@.take(i + 1) =~= regions@.take(i as int).push(regions@[i as int]));
        i = i + 1;
    }
    assert(regions@.take(i as int) =~= regions@);
    mapped
}

/// The same boxes of the same layers, each from the start to the end of its bounds.
pub open spec fn image_blit(region: com::ImageBlit) -> vk::ImageBlit {
    vk::ImageBlit {
        src_subresource: conv::subresource_layers(region.src_subresource),
        src_offsets: [conv::offset(region.src_bounds.start), conv::offset(region.src_bounds.end)],
        dst_subresource: conv::subresource_layers(region.dst_subresource),
        dst_offsets: [conv::offset(region.dst_bounds.start), conv::offset(region.dst_bounds.end)],
    }
}

/// The same boxes, region by region.
pub open spec fn image_blits(items: Seq<com::ImageBlit>) -> Seq<vk::ImageBlit> {
    items.map_values(|item: com::ImageBlit| image_blit(item))
}

/// Maps the regions of a blit.
pub fn map_image_blits(regions: &[com::ImageBlit]) -> (mapped: Small4<vk::ImageBlit>)
    requires
        forall|i: int| 0 <= i < regions@.len() ==> (#[trigger] regions@[i]).wf(),
    ensures
        mapped@ == image_blits(regions@),
        mapped@.len() == regions@.len(),
        forall|i: int|
            0 <= i < regions@.len() ==> {
                &&& (#[trigger] mapped@[i]).src_offsets[0].x == regions@[i].src_bounds.start.x
                &&& mapped@[i].src_offsets[0].y == regions@[i].src_bounds.start.y
                &&& mapped@[i].src_offsets[0].z == regions@[i].src_bounds.start.z
                &&& mapped@[i].src_offsets[1].x == regions@[i].src_bounds.end.x
                &&& mapped@[i].src_offsets[1].y == regions@[i].src_bounds.end.y
                &&& mapped@[i].src_offsets[1].z == regions@[i].src_bounds.end.z
                &&& mapped@[i].dst_offsets[0].x == regions@[i].dst_bounds.start.x
                &&& mapped@[i].dst_offsets[0].y == regions@[i].dst_bounds.start.y
                &&& mapped@[i].dst_offsets[0].z == regions@[i].dst_bounds.start.z
                &&& mapped@[i].dst_offsets[1].x == regions@[i].dst_bounds.end.x
                &&& mapped@[i].dst_offsets[1].y == regions@[i].dst_bounds.end.y
                &&& mapped@[i].dst_offsets[1].z == regions@[i].dst_bounds.end.z
            },
{
    let mut mapped: Small4<vk::ImageBlit> = small::no_image_blits();
    let mut i: usize = 0;
    while i < regions.len()
        invariant
            i <= regions@.len(),
            forall|k: int| 0 <= k < regions@.len() ==> (#[trigger] regions@[k]).wf(),
            mapped@ == image_blits(regions@.take(i as int)),
        decreases regions@.len() - i,
    {
        let region = &regions[i];
        mapped.push(
            vk::ImageBlit {
                src_subresource: conv::map_subresource_layers(&region.src_subresource),
                src_offsets: [
                    conv::map_offset(region.src_bounds.start),
                    conv::map_offset(region.src_bounds.end),
                ],
                dst_subresource: conv::map_subresource_layers(&region.dst_subresource),
                dst_offsets: [
                    conv::map_offset(region.dst_bounds.start),
                    conv::map_offset(region.dst_bounds.end),
                ],
            },
        );
        assert(regions@.take(i + 1) =~= regions@.take(i as int).push(regions@[i as int]));
        i = i + 1;
    }
    assert(regions@.take(i as int) =~= regions@);
    mapped
}

/// The same texels: where they lie in the buffer, and where in the image.
pub open spec fn buffer_image_copy(region: com::BufferImageCopy) -> vk::BufferImageCopy {
    vk::BufferImageCopy {
        buffer_offset: region.buffer_offset,
        buffer_row_length: region.buffer_width,
        buffer_image_height: region.buffer_height,
        image_subresource: conv::subresource_layers(region.image_layers),
        image_offset: conv::offset(region.image_offset),
        image_extent: conv::extent(region.image_extent),
    }
}

/// The same texels, region by region.
pub open spec fn buffer_image_copies(items: Seq<com::BufferImageCopy>) -> Seq<vk::BufferImageCopy> {
    items.map_values(|item: com::BufferImageCopy| buffer_image_copy(item))
}

/// Maps the regions of a copy between a buffer and an image. They do not depend on
/// the image.
pub fn map_buffer_image_regions(
    _image: &Image,
    regions: &[com::BufferImageCopy],
) -> (mapped: Small16<vk::BufferImageCopy>)
    requires
        forall|i: int| 0 <= i < regions@.len() ==> (#[trigger] regions@[i]).wf(),
    ensures
        mapped@ == buffer_image_copies(regions@),
        mapped@.len() == regions@.len(),
        forall|i: int|
            0 <= i < regions@.len() ==> {
                &&& (#[trigger] mapped@[i]).image_subresource.aspect_mask & 0x1 == (
                if regions@[i].image_layers.aspects.color {
                    0x1u32
                } else {
                    0u32
                })
                &&& mapped@[i].image_subresource.aspect_mask & 0x2 == (
                if regions@[i].image_layers.aspects.depth {
                    0x2u32
                } else {
                    0u32
                })
                &&& mapped@[i].image_subresource.aspect_mask & 0x4 == (
                if regions@[i].image_layers.aspects.stencil {
                    0x4u32
                } else {
                    0u32
                })
                &&& mapped@[i].image_subresource.aspect_mask <= 0x7
            },
{
    proof {
        values::lemma_all_aspect_masks();
    }
    let mut mapped: Small16<vk::BufferImageCopy> = small::no_buffer_image_copies();
    let mut i: usize = 0;
    while i < regions.len()
        invariant
            i <= regions@.len(),
            forall|k: int| 0 <= k < regions@.len() ==> (#[trigger] regions@[k]).wf(),
            mapped@ == buffer_image_copies(regions@.take(i as int)),
        decreases regions@.len() - i,
    {
        let region = &regions[i];
        let image_subresource = conv::map_subresource_layers(&region.image_layers);
        mapped.push(
            vk::BufferImageCopy {
                buffer_offset: region.buffer_offset,
                buffer_row_length: region.buffer_width,
                buffer_image_height: region.buffer_height,
                image_subresource,
                image_offset: conv::map_offset(region.image_offset),
                image_extent: conv::map_extent(region.image_extent),
            },
        );
        assert(regions@.take(i + 1) =~= regions@.take(i as int).push(regions@[i as int]));
        i = i + 1;
    }
    assert(regions@.take(i as int) =~= regions@);
    mapped
}

} // verus!
