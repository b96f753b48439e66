//! What is cleared, where, and to which values, in Vulkan's terms.
use crate::conv;
use crate::hal::command as com;
use crate::hal::pso;
use crate::small::{self, Small16};
use crate::vk;
use vstd::prelude::*;

verus! {

/// The clear value in the same four words of memory.
pub open spec fn clear_value(value: com::ClearValueRaw) -> vk::ClearValue {
    vk::ClearValue::Color(vk::ClearColorValue { words: value.words })
}

/// The same clear values.
pub open spec fn clear_values(items: Seq<com::ClearValueRaw>) -> Seq<vk::ClearValue> {
    items.map_values(|item: com::ClearValueRaw| clear_value(item))
}

/// Maps the clear values of a render pass.
pub fn map_clear_values(values: &[com::ClearValueRaw]) -> (mapped: Small16<vk::ClearValue>)
    ensures
        mapped@ == clear_values(values@),
{
    let mut mapped: Small16<vk::ClearValue> = small::no_clear_values();
    let mut i: usize = 0;
    while i < values.len()
        invariant
            i <= values@.len(),
            mapped@ == clear_values(values@.take(i as int)),
        decreases values@.len() - i,
    {
        mapped.push(vk::ClearValue::Color(vk::ClearColorValue { words: values[i].words }));
        assert(values@.take(i + 1) =~= values@.take(i as int).push(values@[i as int]));
        i = i + 1;
    }
    assert(values@.take(i as int) =~= values@);
    mapped
}

/// The attachment: the aspects to clear, for a colour the index of its attachment,
/// and the value to clear to.
pub open spec fn clear_attachment(clear: com::AttachmentClear) -> vk::ClearAttachment {
    match clear {
        com::AttachmentClear::Color(index, value) => vk::ClearAttachment {
            aspect_mask: vk::IMAGE_ASPECT_COLOR,
            color_attachment: index as u32,
            clear_value: vk::ClearValue::Color(conv::clear_color(value)),
        },
        com::AttachmentClear::Depth(value) => vk::ClearAttachment {
            aspect_mask: vk::IMAGE_ASPECT_DEPTH,
            color_attachment: 0,
            clear_value: vk::ClearValue::DepthStencil(conv::clear_depth(value)),
        },
        com::AttachmentClear::Stencil(value) => vk::ClearAttachment {
            aspect_mask: vk::IMAGE_ASPECT_STENCIL,
            color_attachment: 0,
            clear_value: vk::ClearValue::DepthStencil(conv::clear_stencil(value)),
        },
        com::AttachmentClear::DepthStencil(value) => vk::ClearAttachment {
            aspect_mask: vk::IMAGE_ASPECT_DEPTH | vk::IMAGE_ASPECT_STENCIL,
            color_attachment: 0,
            clear_value: vk::ClearValue::DepthStencil(conv::clear_depth_stencil(value)),
        },
    }
}

/// The attachments, one by one.
pub open spec fn clear_attachments(items: Seq<com::AttachmentClear>) -> Seq<vk::ClearAttachment> {
    items.map_values(|item: com::AttachmentClear| clear_attachment(item))
}

/// Maps the attachments to clear.
pub fn map_clear_attachments(
    clears: &[com::AttachmentClear],
) -> (mapped: Small16<vk::ClearAttachment>)
    ensures
        mapped@ == clear_attachments(clears@),
{
    let mut mapped: Small16<vk::ClearAttachment> = small::no_clear_attachments();
    let mut i: usize = 0;
    while i < clears.len()
        invariant
            i <= clears@.len(),
            mapped@ == clear_attachments(clears@.take(i as int)),
        decreases clears@.len() - i,
    {
        let attachment = match clears[i] {
            com::AttachmentClear::Color(index, value) => vk::ClearAttachment {
                aspect_mask: vk::image_aspect_color(),
                color_attachment: index as u32,
                clear_value: vk::ClearValue::Color(conv::map_clear_color(value)),
            },
            com::AttachmentClear::Depth(value) => vk::ClearAttachment {
                aspect_mask: vk::image_aspect_depth(),
                color_attachment: 0,
                clear_value: vk::ClearValue::DepthStencil(conv::map_clear_depth(value)),
            },
            com::AttachmentClear::Stencil(value) => vk::ClearAttachment {
                aspect_mask: vk::image_aspect_stencil(),
                color_attachment: 0,
                clear_value: vk::ClearValue::DepthStencil(conv::map_clear_stencil(value)),
            },
            com::AttachmentClear::DepthStencil(value) => vk::ClearAttachment {
                aspect_mask: vk::image_aspect_depth() | vk::image_aspect_stencil(),
                color_attachment: 0,
                clear_value: vk::ClearValue::DepthStencil(conv::map_clear_depth_stencil(value)),
            },
        };
        mapped.push(attachment);
        assert(clears@.take(i + 1) =~= clears@.take(i as int).push(clears@[i as int]));
        i = i + 1;
    }
    assert(clears@.take(i as int) =~= clears@);
    mapped
}

/// The rectangle in all layers.
pub open spec fn clear_rect(rect: pso::Rect) -> vk::ClearRect {
    vk::ClearRect {
        rect: conv::rect(rect),
        base_array_layer: 0,
        layer_count: vk::REMAINING_ARRAY_LAYERS,
    }
}

/// The rectangles in all layers, one by one.
pub open spec fn clear_rects(items: Seq<pso::Rect>) -> Seq<vk::ClearRect> {
    items.map_values(|item: pso::Rect| clear_rect(item))
}

/// Maps the rectangles to clear.
pub fn map_clear_rects(rects: &[pso::Rect]) -> (mapped: Small16<vk::ClearRect>)
    ensures
        mapped@ == clear_rects(rects@),
{
    let mut mapped: Small16<vk::ClearRect> = small::no_clear_rects();
    let mut i: usize = 0;
    while i < rects.len()
        invariant
            i <= rects@.len(),
            mapped@ == clear_rects(rects@.take(i as int)),
        decreases rects@.len() - i,
    {
        mapped.push(
            vk::ClearRect {
                base_array_layer: 0,
                layer_count: vk::remaining_array_layers(),
                rect: conv::map_rect(&rects[i]),
            },
        );
        assert(rects@.take(i + 1) =~= rects@.take(i as int).push(rects@[i as int]));
        i = i + 1;
    }
    assert(rects@.take(i as int) =~= rects@);
    mapped
}

} // verus!
