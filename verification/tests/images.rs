use vulkan_command::call::{DeviceCall, Settled};
use vulkan_command::command::CommandBuffer;
use vulkan_command::conv;
use vulkan_command::hal::command::{
    AttachmentClear, BufferCopy, BufferImageCopy, ClearColor, ClearColorRaw, ClearDepthStencil,
    ClearDepthStencilRaw, CommandBufferFlags, ImageBlit, ImageCopy, ImageResolve,
};
use vulkan_command::hal::format::Aspects;
use vulkan_command::hal::image::{
    Extent, Filter, Layout, Offset, SubresourceLayers, SubresourceRange,
};
use vulkan_command::hal::pso::Rect;
use vulkan_command::native::{Buffer, Image};
use vulkan_command::regions::map_buffer_image_regions;
use vulkan_command::vk;

const RAW: usize = 77;

fn commands() -> CommandBuffer {
    CommandBuffer { raw: RAW }
}

fn aspects(color: bool, depth: bool, stencil: bool) -> Aspects {
    Aspects { color, depth, stencil }
}

fn layers(level: u8, first: u16, end: u16) -> SubresourceLayers {
    SubresourceLayers { aspects: aspects(true, false, false), level, layers: first..end }
}

fn mapped_layers(
    mip_level: u32,
    base_array_layer: u32,
    layer_count: u32,
) -> vk::ImageSubresourceLayers {
    vk::ImageSubresourceLayers { aspect_mask: 1, mip_level, base_array_layer, layer_count }
}

fn at(x: i32, y: i32, z: i32) -> Offset {
    Offset { x, y, z }
}

fn mapped_at(x: i32, y: i32, z: i32) -> vk::Offset3D {
    vk::Offset3D { x, y, z }
}

fn size(width: u32, height: u32, depth: u32) -> Extent {
    Extent { width, height, depth }
}

#[test]
fn buffer_copies_keep_their_order() {
    let regions = [
        BufferCopy { src: 1, dst: 2, size: 3 },
        BufferCopy { src: 4, dst: 5, size: 6 },
    ];
    match commands().copy_buffer(&Buffer { raw: 1 }, &Buffer { raw: 2 }, &regions) {
        DeviceCall::CopyBuffer { command_buffer, src_buffer, dst_buffer, regions } => {
            assert_eq!((command_buffer, src_buffer, dst_buffer), (RAW, 1, 2));
            assert_eq!(
                regions.items(),
                &[
                    vk::BufferCopy { src_offset: 1, dst_offset: 2, size: 3 },
                    vk::BufferCopy { src_offset: 4, dst_offset: 5, size: 6 },
                ]
            );
        }
        _ => panic!("another call"),
    }
}

#[test]
fn more_regions_than_fit_on_the_stack() {
    let regions: Vec<BufferCopy> =
        (0..100).map(|i| BufferCopy { src: i, dst: i + 1, size: i + 2 }).collect();
    match commands().copy_buffer(&Buffer { raw: 1 }, &Buffer { raw: 2 }, &regions) {
        DeviceCall::CopyBuffer { regions, .. } => {
            assert_eq!(regions.items().len(), 100);
            for (i, region) in regions.items().iter().enumerate() {
                let i = i as u64;
                assert_eq!(
                    *region,
                    vk::BufferCopy { src_offset: i, dst_offset: i + 1, size: i + 2 }
                );
            }
        }
        _ => panic!("another call"),
    }
}

#[test]
fn regions_in_two_parts_give_the_same_list() {
    let copied = |regions: &[BufferCopy]| {
        match commands().copy_buffer(&Buffer { raw: 1 }, &Buffer { raw: 2 }, regions) {
            DeviceCall::CopyBuffer { regions, .. } => regions.items().to_vec(),
            _ => panic!("another call"),
        }
    };
    let regions: Vec<BufferCopy> =
        (0..20).map(|i| BufferCopy { src: i, dst: 2 * i, size: 1 }).collect();
    let mut parts = copied(&regions[..7]);
    parts.extend(copied(&regions[7..]));
    assert_eq!(parts, copied(&regions));
}

#[test]
fn image_copy_maps_both_sides() {
    let regions = [ImageCopy {
        src_subresource: layers(1, 0, 1),
        src_offset: at(1, 2, 3),
        dst_subresource: layers(2, 3, 7),
        dst_offset: at(-4, 5, 6),
        extent: size(8, 9, 10),
    }];
    let call = commands().copy_image(
        &Image { raw: 1 },
        Layout::TransferSrcOptimal,
        &Image { raw: 2 },
        Layout::General,
        &regions,
    );
    match call {
        DeviceCall::CopyImage {
            command_buffer,
            src_image,
            src_image_layout,
            dst_image,
            dst_image_layout,
            regions,
        } => {
            assert_eq!((command_buffer, src_image, dst_image), (RAW, 1, 2));
            assert_eq!(src_image_layout, vk::ImageLayout::TransferSrcOptimal);
            assert_eq!(dst_image_layout, vk::ImageLayout::General);
            assert_eq!(
                regions.items(),
                &[vk::ImageCopy {
                    src_subresource: mapped_layers(1, 0, 1),
                    src_offset: mapped_at(1, 2, 3),
                    dst_subresource: mapped_layers(2, 3, 4),
                    dst_offset: mapped_at(-4, 5, 6),
                    extent: vk::Extent3D { width: 8, height: 9, depth: 10 },
                }]
            );
        }
        _ => panic!("another call"),
    }
}

#[test]
fn resolve_maps_both_sides() {
    let regions = [ImageResolve {
        src_subresource: layers(0, 0, 2),
        src_offset: at(1, 1, 1),
        dst_subresource: layers(0, 2, 4),
        dst_offset: at(2, 2, 2),
        extent: size(3, 3, 1),
    }];
    let call = commands().resolve_image(
        &Image { raw: 1 },
        Layout::TransferSrcOptimal,
        &Image { raw: 2 },
        Layout::TransferDstOptimal,
        &regions,
    );
    match call {
        DeviceCall::ResolveImage {
            command_buffer,
            src_image,
            src_image_layout,
            dst_image,
            dst_image_layout,
            regions,
        } => {
            assert_eq!((command_buffer, src_image, dst_image), (RAW, 1, 2));
            assert_eq!(src_image_layout, vk::ImageLayout::TransferSrcOptimal);
            assert_eq!(dst_image_layout, vk::ImageLayout::TransferDstOptimal);
            assert_eq!(
                regions.items(),
                &[vk::ImageResolve {
                    src_subresource: mapped_layers(0, 0, 2),
                    src_offset: mapped_at(1, 1, 1),
                    dst_subresource: mapped_layers(0, 2, 2),
                    dst_offset: mapped_at(2, 2, 2),
                    extent: vk::Extent3D { width: 3, height: 3, depth: 1 },
                }]
            );
        }
        _ => panic!("another call"),
    }
}

fn blit(from: Offset, to: Offset) -> ImageBlit {
    ImageBlit {
        src_subresource: layers(0, 0, 1),
        src_bounds: from..to,
        dst_subresource: layers(1, 1, 2),
        dst_bounds: to..from,
    }
}

#[test]
fn blit_goes_from_start_to_end() {
    let regions = [blit(at(0, 0, 0), at(8, 8, 1))];
    let call = commands().blit_image(
        &Image { raw: 1 },
        Layout::General,
        &Image { raw: 2 },
        Layout::Present,
        Filter::Linear,
        &regions,
    );
    match call {
        DeviceCall::BlitImage {
            command_buffer,
            src_image,
            src_image_layout,
            dst_image,
            dst_image_layout,
            regions,
            filter,
        } => {
            assert_eq!((command_buffer, src_image, dst_image), (RAW, 1, 2));
            assert_eq!(src_image_layout, vk::ImageLayout::General);
            assert_eq!(dst_image_layout, vk::ImageLayout::PresentSrcKhr);
            assert_eq!(filter, vk::Filter::Linear);
            assert_eq!(
                regions.items(),
                &[vk::ImageBlit {
                    src_subresource: mapped_layers(0, 0, 1),
                    src_offsets: [mapped_at(0, 0, 0), mapped_at(8, 8, 1)],
                    dst_subresource: mapped_layers(1, 1, 1),
                    dst_offsets: [mapped_at(8, 8, 1), mapped_at(0, 0, 0)],
                }]
            );
        }
        _ => panic!("another call"),
    }
}

#[test]
fn blit_turned_round_swaps_its_corners() {
    let corners = |region: ImageBlit| {
        let call = commands().blit_image(
            &Image { raw: 1 },
            Layout::General,
            &Image { raw: 2 },
            Layout::General,
            Filter::Nearest,
            &[region],
        );
        match call {
            DeviceCall::BlitImage { regions, filter, .. } => {
                assert_eq!(filter, vk::Filter::Nearest);
                regions.items()[0].src_offsets
            }
            _ => panic!("another call"),
        }
    };
    let there = corners(blit(at(1, 2, 3), at(4, 5, 6)));
    let back = corners(blit(at(4, 5, 6), at(1, 2, 3)));
    assert_eq!([there[1], there[0]], back);
}

fn texels() -> [BufferImageCopy; 2] {
    [
        BufferImageCopy {
            buffer_offset: 256,
            buffer_width: 64,
            buffer_height: 32,
            image_layers: layers(3, 1, 5),
            image_offset: at(1, 2, 0),
            image_extent: size(60, 30, 1),
        },
        BufferImageCopy {
            buffer_offset: 0,
            buffer_width: 0,
            buffer_height: 0,
            image_layers: layers(0, 0, 0),
            image_offset: at(0, 0, 0),
            image_extent: size(0, 0, 0),
        },
    ]
}

fn mapped_texels() -> [vk::BufferImageCopy; 2] {
    [
        vk::BufferImageCopy {
            buffer_offset: 256,
            buffer_row_length: 64,
            buffer_image_height: 32,
            image_subresource: mapped_layers(3, 1, 4),
            image_offset: mapped_at(1, 2, 0),
            image_extent: vk::Extent3D { width: 60, height: 30, depth: 1 },
        },
        vk::BufferImageCopy {
            buffer_offset: 0,
            buffer_row_length: 0,
            buffer_image_height: 0,
            image_subresource: mapped_layers(0, 0, 0),
            image_offset: mapped_at(0, 0, 0),
            image_extent: vk::Extent3D { width: 0, height: 0, depth: 0 },
        },
    ]
}

#[test]
fn texels_go_to_an_image_and_back() {
    let layout = Layout::TransferDstOptimal;
    let (buffer, image) = (Buffer { raw: 1 }, Image { raw: 2 });
    match commands().copy_buffer_to_image(&buffer, &image, layout, &texels()) {
        DeviceCall::CopyBufferToImage {
            command_buffer,
            src_buffer,
            dst_image,
            dst_image_layout,
            regions,
        } => {
            assert_eq!((command_buffer, src_buffer, dst_image), (RAW, 1, 2));
            assert_eq!(dst_image_layout, vk::ImageLayout::TransferDstOptimal);
            assert_eq!(regions.items(), &mapped_texels());
        }
        _ => panic!("another call"),
    }
    let layout = Layout::TransferSrcOptimal;
    match commands().copy_image_to_buffer(&image, layout, &buffer, &texels()) {
        DeviceCall::CopyImageToBuffer {
            command_buffer,
            src_image,
            src_image_layout,
            dst_buffer,
            regions,
        } => {
            assert_eq!((command_buffer, src_image, dst_buffer), (RAW, 2, 1));
            assert_eq!(src_image_layout, vk::ImageLayout::TransferSrcOptimal);
            assert_eq!(regions.items(), &mapped_texels());
        }
        _ => panic!("another call"),
    }
}

#[test]
fn buffer_image_regions_do_not_depend_on_the_image() {
    let one = map_buffer_image_regions(&Image { raw: 1 }, &texels());
    let other = map_buffer_image_regions(&Image { raw: 2 }, &texels());
    assert_eq!(one.items(), other.items());
}

fn range(aspects: Aspects) -> SubresourceRange {
    SubresourceRange { aspects, levels: 0..2, layers: 3..4 }
}

#[test]
fn color_image_is_cleared_to_the_same_words() {
    let value = ClearColorRaw { words: [1, 2, 3, 0xffff_ffff] };
    let color = range(aspects(true, false, false));
    match commands().clear_color_image_raw(&Image { raw: 5 }, Layout::General, color, value) {
        DeviceCall::ClearColorImage {
            command_buffer,
            image,
            image_layout,
            clear_value,
            ranges,
        } => {
            assert_eq!((command_buffer, image), (RAW, 5));
            assert_eq!(image_layout, vk::ImageLayout::General);
            assert_eq!(clear_value.words, [1, 2, 3, 0xffff_ffff]);
            assert_eq!(
                ranges,
                [vk::ImageSubresourceRange {
                    aspect_mask: 1,
                    base_mip_level: 0,
                    level_count: 2,
                    base_array_layer: 3,
                    layer_count: 1,
                }]
            );
        }
        _ => panic!("another call"),
    }
}

#[test]
fn depth_stencil_image_is_cleared_to_both() {
    let value = ClearDepthStencilRaw { depth: 1.0f32.to_bits(), stencil: 9 };
    let both = range(aspects(false, true, true));
    let layout = Layout::DepthStencilAttachmentOptimal;
    match commands().clear_depth_stencil_image_raw(&Image { raw: 5 }, layout, both, value) {
        DeviceCall::ClearDepthStencilImage {
            command_buffer,
            image,
            image_layout,
            clear_value,
            ranges,
        } => {
            assert_eq!((command_buffer, image), (RAW, 5));
            assert_eq!(image_layout, vk::ImageLayout::DepthStencilAttachmentOptimal);
            assert_eq!(
                clear_value,
                vk::ClearDepthStencilValue { depth: 0x3f80_0000, stencil: 9 }
            );
            assert_eq!(ranges[0].aspect_mask, 6);
        }
        _ => panic!("another call"),
    }
}

#[test]
fn attachments_are_cleared_by_aspect() {
    let depth = 0.5f32.to_bits();
    let clears = [
        AttachmentClear::Color(2, ClearColor::Int([-1, 0, 1, i32::MIN])),
        AttachmentClear::Color(0, ClearColor::Uint([4, 3, 2, 1])),
        AttachmentClear::Color(1, ClearColor::Float([depth, 0, 0, depth])),
        AttachmentClear::Depth(depth),
        AttachmentClear::Stencil(7),
        AttachmentClear::DepthStencil(ClearDepthStencil { depth, stencil: 8 }),
    ];
    let rects = [Rect { x: 1, y: 2, w: 3, h: 4 }];
    match commands().clear_attachments(&clears, &rects) {
        DeviceCall::ClearAttachments { command_buffer, attachments, rects } => {
            assert_eq!(command_buffer, RAW);
            let color = |color_attachment, words| vk::ClearAttachment {
                aspect_mask: 1,
                color_attachment,
                clear_value: vk::ClearValue::Color(vk::ClearColorValue { words }),
            };
            let depth_stencil = |aspect_mask, depth, stencil| vk::ClearAttachment {
                aspect_mask,
                color_attachment: 0,
                clear_value: vk::ClearValue::DepthStencil(vk::ClearDepthStencilValue {
                    depth,
                    stencil,
                }),
            };
            assert_eq!(
                attachments.items(),
                &[
                    color(2, [0xffff_ffff, 0, 1, 0x8000_0000]),
                    color(0, [4, 3, 2, 1]),
                    color(1, [depth, 0, 0, depth]),
                    depth_stencil(2, depth, 0),
                    depth_stencil(4, 0, 7),
                    depth_stencil(6, depth, 8),
                ]
            );
            assert_eq!(
                rects.items(),
                &[vk::ClearRect {
                    rect: vk::Rect2D {
                        offset: vk::Offset2D { x: 1, y: 2 },
                        extent: vk::Extent2D { width: 3, height: 4 },
                    },
                    base_array_layer: 0,
                    layer_count: 0xffff_ffff,
                }]
            );
        }
        _ => panic!("another call"),
    }
}

#[test]
fn layouts_are_told_apart() {
    let layouts = [
        Layout::General,
        Layout::ColorAttachmentOptimal,
        Layout::DepthStencilAttachmentOptimal,
        Layout::DepthStencilReadOnlyOptimal,
        Layout::ShaderReadOnlyOptimal,
        Layout::TransferSrcOptimal,
        Layout::TransferDstOptimal,
        Layout::Undefined,
        Layout::Preinitialized,
        Layout::Present,
    ];
    for (i, &a) in layouts.iter().enumerate() {
        for (j, &b) in layouts.iter().enumerate() {
            assert_eq!(conv::map_image_layout(a) == conv::map_image_layout(b), i == j);
        }
    }
}

#[test]
fn aspect_masks_follow_the_sets() {
    let mut sets = Vec::new();
    for bits in 0..8u32 {
        sets.push((bits, aspects(bits & 1 != 0, bits & 2 != 0, bits & 4 != 0)));
    }
    for &(bits, set) in &sets {
        assert_eq!(conv::map_image_aspects(set), bits);
        for &(other_bits, other) in &sets {
            assert_eq!(set.contains(other), bits & other_bits == other_bits);
        }
    }
    assert!(Aspects::color().contains(aspects(true, false, false)));
    assert!(!Aspects::color().contains(aspects(true, true, false)));
    assert!(Aspects::depth_stencil().contains(aspects(false, false, true)));
    assert!(!Aspects::depth_stencil().contains(aspects(true, false, true)));
}

#[test]
fn unordered_layers_are_told() {
    assert!(layers(0, 3, 3).is_ordered());
    assert!(!layers(0, 4, 3).is_ordered());
    let mut region = texels();
    region[0].image_layers = layers(0, 2, 1);
    assert!(!region[0].is_ordered());
    assert!(region[1].is_ordered());
}

#[test]
fn a_refused_command_buffer_is_a_failure() {
    let begin = commands().begin(CommandBufferFlags { bits: 0 });
    assert_eq!(begin.settle(Ok(())), Settled::Recorded);
    assert_eq!(begin.settle(Err(-1)), Settled::Failed(-1));
    assert_eq!(commands().finish().settle(Err(-2)), Settled::Failed(-2));
    assert_eq!(commands().reset(true).settle(Err(-4)), Settled::Failed(-4));
    assert_eq!(commands().reset(false).settle(Ok(())), Settled::Recorded);
}

#[test]
fn recording_reports_nothing() {
    assert_eq!(commands().end_render_pass().settle(Ok(())), Settled::Recorded);
    assert_eq!(commands().draw(0..1, 0..1).settle(Err(-1)), Settled::Recorded);
}

#[test]
fn clones_are_the_same() {
    let region = &texels()[0];
    assert_eq!(region.clone(), *region);
    let blit = blit(at(1, 2, 3), at(4, 5, 6));
    assert_eq!(blit.clone(), blit);
    let range = range(aspects(true, false, true));
    assert_eq!(range.clone(), range);
}
