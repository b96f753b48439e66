//! From what a caller asks for to what Vulkan takes.
use crate::hal::format::Aspects;
use crate::hal::{buffer, command as com, image, pso};
use crate::vk;
use vstd::prelude::*;

verus! {

/// The mask with the bit of each aspect in the set.
pub open spec fn image_aspects(aspects: Aspects) -> u32 {
    (if aspects.color { vk::IMAGE_ASPECT_COLOR } else { 0u32 })
        | (if aspects.depth { vk::IMAGE_ASPECT_DEPTH } else { 0u32 })
        | (if aspects.stencil { vk::IMAGE_ASPECT_STENCIL } else { 0u32 })
}

/// Gives the mask with the bit of each aspect in the set.
pub fn map_image_aspects(aspects: Aspects) -> (mask: u32)
    ensures
        mask == image_aspects(aspects),
{
    let color: u32 = if aspects.color { vk::image_aspect_color() } else { 0 };
    let depth: u32 = if aspects.depth { vk::image_aspect_depth() } else { 0 };
    let stencil: u32 = if aspects.stencil { vk::image_aspect_stencil() } else { 0 };
    color | depth | stencil
}

/// The layout of the same name. An image to present has Vulkan's layout for the
/// source of a presentation.
pub open spec fn image_layout(layout: image::Layout) -> vk::ImageLayout {
    match layout {
        image::Layout::General => vk::ImageLayout::General,
        image::Layout::ColorAttachmentOptimal => vk::ImageLayout::ColorAttachmentOptimal,
        image::Layout::DepthStencilAttachmentOptimal =>
            vk::ImageLayout::DepthStencilAttachmentOptimal,
        image::Layout::DepthStencilReadOnlyOptimal => vk::ImageLayout::DepthStencilReadOnlyOptimal,
        image::Layout::ShaderReadOnlyOptimal => vk::ImageLayout::ShaderReadOnlyOptimal,
        image::Layout::TransferSrcOptimal => vk::ImageLayout::TransferSrcOptimal,
        image::Layout::TransferDstOptimal => vk::ImageLayout::TransferDstOptimal,
        image::Layout::Undefined => vk::ImageLayout::Undefined,
        image::Layout::Preinitialized => vk::ImageLayout::Preinitialized,
        image::Layout::Present => vk::ImageLayout::PresentSrcKhr,
    }
}

/// Gives the layout of the same name.
pub fn map_image_layout(layout: image::Layout) -> (mapped: vk::ImageLayout)
    ensures
        mapped == image_layout(layout),
{
    match layout {
        image::Layout::General => vk::ImageLayout::General,
        image::Layout::ColorAttachmentOptimal => vk::ImageLayout::ColorAttachmentOptimal,
        image::Layout::DepthStencilAttachmentOptimal =>
            vk::ImageLayout::DepthStencilAttachmentOptimal,
        image::Layout::DepthStencilReadOnlyOptimal => vk::ImageLayout::DepthStencilReadOnlyOptimal,
        image::Layout::ShaderReadOnlyOptimal => vk::ImageLayout::ShaderReadOnlyOptimal,
        image::Layout::TransferSrcOptimal => vk::ImageLayout::TransferSrcOptimal,
        image::Layout::TransferDstOptimal => vk::ImageLayout::TransferDstOptimal,
        image::Layout::Undefined => vk::ImageLayout::Undefined,
        image::Layout::Preinitialized => vk::ImageLayout::Preinitialized,
        image::Layout::Present => vk::ImageLayout::PresentSrcKhr,
    }
}

/// The filter of the same name.
pub open spec fn filter(filter: image::Filter) -> vk::Filter {
    match filter {
        image::Filter::Nearest => vk::Filter::Nearest,
        image::Filter::Linear => vk::Filter::Linear,
    }
}

/// Gives the filter of the same name.
pub fn map_filter(filter: image::Filter) -> (mapped: vk::Filter)
    ensures
        mapped == self::filter(filter),
{
    match filter {
        image::Filter::Nearest => vk::Filter::Nearest,
        image::Filter::Linear => vk::Filter::Linear,
    }
}

/// The index type of the same width.
pub open spec fn index_type(index_type: buffer::IndexType) -> vk::IndexType {
    match index_type {
        buffer::IndexType::U16 => vk::IndexType::Uint16,
        buffer::IndexType::U32 => vk::IndexType::Uint32,
    }
}

/// Gives the index type of the same width.
pub fn map_index_type(index_type: buffer::IndexType) -> (mapped: vk::IndexType)
    ensures
        mapped == self::index_type(index_type),
{
    match index_type {
        buffer::IndexType::U16 => vk::IndexType::Uint16,
        buffer::IndexType::U32 => vk::IndexType::Uint32,
    }
}

/// The same position.
pub open spec fn offset(offset: image::Offset) -> vk::Offset3D {
    vk::Offset3D { x: offset.x, y: offset.y, z: offset.z }
}

/// Gives the same position.
pub fn map_offset(offset: image::Offset) -> (mapped: vk::Offset3D)
    ensures
        mapped == self::offset(offset),
{
    vk::Offset3D { x: offset.x, y: offset.y, z: offset.z }
}

/// The same size.
pub open spec fn extent(extent: image::Extent) -> vk::Extent3D {
    vk::Extent3D { width: extent.width, height: extent.height, depth: extent.depth }
}

/// Gives the same size.
pub fn map_extent(extent: image::Extent) -> (mapped: vk::Extent3D)
    ensures
        mapped == self::extent(extent),
{
    vk::Extent3D { width: extent.width, height: extent.height, depth: extent.depth }
}

/// The same rectangle.
pub open spec fn rect(rect: pso::Rect) -> vk::Rect2D {
    vk::Rect2D {
        offset: vk::Offset2D { x: rect.x as i32, y: rect.y as i32 },
        extent: vk::Extent2D { width: rect.w as u32, height: rect.h as u32 },
    }
}

/// Gives the same rectangle.
pub fn map_rect(rect: &pso::Rect) -> (mapped: vk::Rect2D)
    ensures
        mapped == self::rect(*rect),
{
    vk::Rect2D {
        offset: vk::Offset2D { x: rect.x as i32, y: rect.y as i32 },
        extent: vk::Extent2D { width: rect.w as u32, height: rect.h as u32 },
    }
}

/// The same rectangle and depths.
pub open spec fn viewport(viewport: pso::Viewport) -> vk::Viewport {
    vk::Viewport {
        x: viewport.rect.x,
        y: viewport.rect.y,
        width: viewport.rect.w,
        height: viewport.rect.h,
        min_depth: viewport.depth.start,
        max_depth: viewport.depth.end,
    }
}

/// Gives the same rectangle and depths.
pub fn map_viewport(viewport: &pso::Viewport) -> (mapped: vk::Viewport)
    ensures
        mapped == self::viewport(*viewport),
{
    vk::Viewport {
        x: viewport.rect.x,
        y: viewport.rect.y,
        width: viewport.rect.w,
        height: viewport.rect.h,
        min_depth: viewport.depth.start,
        max_depth: viewport.depth.end,
    }
}

/// The same layers of the same level, by the first layer and their number.
pub open spec fn subresource_layers(
    sub: image::SubresourceLayers,
) -> vk::ImageSubresourceLayers {
    vk::ImageSubresourceLayers {
        aspect_mask: image_aspects(sub.aspects),
        mip_level: sub.level as u32,
        base_array_layer: sub.layers.start as u32,
        layer_count: (sub.layers.end - sub.layers.start) as u32,
    }
}

/// Gives the same layers of the same level, by the first layer and their number.
pub fn map_subresource_layers(
    sub: &image::SubresourceLayers,
) -> (mapped: vk::ImageSubresourceLayers)
    requires
        sub.wf(),
    ensures
        mapped == subresource_layers(*sub),
        mapped.base_array_layer + mapped.layer_count == sub.layers.end,
{
    vk::ImageSubresourceLayers {
        aspect_mask: map_image_aspects(sub.aspects),
        mip_level: sub.level as u32,
        base_array_layer: sub.layers.start as u32,
        layer_count: (sub.layers.end - sub.layers.start) as u32,
    }
}

/// The same levels and layers, each by the first and their number.
pub open spec fn subresource_range(range: image::SubresourceRange) -> vk::ImageSubresourceRange {
    vk::ImageSubresourceRange {
        aspect_mask: image_aspects(range.aspects),
        base_mip_level: range.levels.start as u32,
        level_count: (range.levels.end - range.levels.start) as u32,
        base_array_layer: range.layers.start as u32,
        layer_count: (range.layers.end - range.layers.start) as u32,
    }
}

/// Gives the same levels and layers, each by the first and their number.
pub fn map_subresource_range(
    range: &image::SubresourceRange,
) -> (mapped: vk::ImageSubresourceRange)
    requires
        range.wf(),
    ensures
        mapped == subresource_range(*range),
        mapped.base_mip_level + mapped.level_count == range.levels.end,
        mapped.base_array_layer + mapped.layer_count == range.layers.end,
{
    vk::ImageSubresourceRange {
        aspect_mask: map_image_aspects(range.aspects),
        base_mip_level: range.levels.start as u32,
        level_count: (range.levels.end - range.levels.start) as u32,
        base_array_layer: range.layers.start as u32,
        layer_count: (range.layers.end - range.layers.start) as u32,
    }
}

/// The colour with the same four words of memory.
pub open spec fn clear_color(color: com::ClearColor) -> vk::ClearColorValue {
    match color {
        com::ClearColor::Float(v) => vk::ClearColorValue { words: v },
        com::ClearColor::Int(v) => vk::ClearColorValue {
            words: [v[0] as u32, v[1] as u32, v[2] as u32, v[3] as u32],
        },
        com::ClearColor::Uint(v) => vk::ClearColorValue { words: v },
    }
}

/// Gives the colour with the same four words of memory.
pub fn map_clear_color(color: com::ClearColor) -> (mapped: vk::ClearColorValue)
    ensures
        mapped == clear_color(color),
{
    match color {
        com::ClearColor::Float(v) => vk::ClearColorValue { words: v },
        com::ClearColor::Int(v) => vk::ClearColorValue {
            words: [v[0] as u32, v[1] as u32, v[2] as u32, v[3] as u32],
        },
        com::ClearColor::Uint(v) => vk::ClearColorValue { words: v },
    }
}

/// The depth with a stencil of zero.
pub open spec fn clear_depth(depth: pso::DepthValue) -> vk::ClearDepthStencilValue {
    vk::ClearDepthStencilValue { depth, stencil: 0 }
}

/// Gives the depth with a stencil of zero.
pub fn map_clear_depth(depth: pso::DepthValue) -> (mapped: vk::ClearDepthStencilValue)
    ensures
        mapped == clear_depth(depth),
{
    vk::ClearDepthStencilValue { depth, stencil: 0 }
}

/// The stencil with a depth of zero.
pub open spec fn clear_stencil(stencil: pso::StencilValue) -> vk::ClearDepthStencilValue {
    vk::ClearDepthStencilValue { depth: 0, stencil }
}

/// Gives the stencil with a depth of zero.
pub fn map_clear_stencil(stencil: pso::StencilValue) -> (mapped: vk::ClearDepthStencilValue)
    ensures
        mapped == clear_stencil(stencil),
{
    vk::ClearDepthStencilValue { depth: 0, stencil }
}

/// The same depth and stencil.
pub open spec fn clear_depth_stencil(
    value: com::ClearDepthStencil,
) -> vk::ClearDepthStencilValue {
    vk::ClearDepthStencilValue { depth: value.depth, stencil: value.stencil }
}

/// Gives the same depth and stencil.
pub fn map_clear_depth_stencil(
    value: com::ClearDepthStencil,
) -> (mapped: vk::ClearDepthStencilValue)
    ensures
        mapped == clear_depth_stencil(value),
{
    vk::ClearDepthStencilValue { depth: value.depth, stencil: value.stencil }
}

} // verus!
