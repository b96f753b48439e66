use vulkan_command::barrier::sort_barriers;
use vulkan_command::call::DeviceCall;
use vulkan_command::command::CommandBuffer;
use vulkan_command::hal::buffer;
use vulkan_command::hal::format::Aspects;
use vulkan_command::hal::image;
use vulkan_command::hal::image::{Layout, SubresourceRange};
use vulkan_command::hal::memory::{Barrier, Dependencies};
use vulkan_command::hal::pso::PipelineStage;
use vulkan_command::native::{Buffer, Image};
use vulkan_command::vk;

fn all_buffers(from: u32, to: u32) -> Barrier {
    Barrier::AllBuffers(buffer::Access { bits: from }..buffer::Access { bits: to })
}

fn all_images(from: u32, to: u32) -> Barrier {
    Barrier::AllImages(image::Access { bits: from }..image::Access { bits: to })
}

fn on_buffer(from: u32, to: u32, raw: u64) -> Barrier {
    Barrier::Buffer {
        states: buffer::Access { bits: from }..buffer::Access { bits: to },
        target: Buffer { raw },
    }
}

fn on_image(raw: u64) -> Barrier {
    Barrier::Image {
        states: (image::Access { bits: 0 }, Layout::Undefined)
            ..(image::Access { bits: 0x1000 }, Layout::TransferDstOptimal),
        target: Image { raw },
        range: SubresourceRange {
            aspects: Aspects { color: true, depth: false, stencil: false },
            levels: 1..4,
            layers: 2..8,
        },
    }
}

fn global(from: u32, to: u32) -> vk::MemoryBarrier {
    vk::MemoryBarrier {
        s_type: vk::StructureType::MemoryBarrier,
        src_access_mask: from,
        dst_access_mask: to,
    }
}

#[test]
fn barriers_are_sorted_in_order() {
    let barriers = [
        on_buffer(1, 2, 100),
        all_images(3, 4),
        on_image(200),
        all_buffers(5, 6),
        on_buffer(7, 8, 101),
    ];
    let stages = PipelineStage { bits: 1 }..PipelineStage { bits: 0x1000 };
    let call =
        CommandBuffer { raw: 9 }.pipeline_barrier(stages, Dependencies { bits: 1 }, &barriers);
    match call {
        DeviceCall::PipelineBarrier {
            command_buffer,
            src_stage_mask,
            dst_stage_mask,
            dependency_flags,
            memory_barriers,
            buffer_memory_barriers,
            image_memory_barriers,
        } => {
            assert_eq!(command_buffer, 9);
            assert_eq!((src_stage_mask, dst_stage_mask), (1, 0x1000));
            assert_eq!(dependency_flags, 1);
            assert_eq!(memory_barriers.items(), &[global(3, 4), global(5, 6)]);
            let buffers = buffer_memory_barriers.items();
            assert_eq!(buffers.len(), 2);
            assert_eq!(
                buffers[0],
                vk::BufferMemoryBarrier {
                    s_type: vk::StructureType::BufferMemoryBarrier,
                    src_access_mask: 1,
                    dst_access_mask: 2,
                    src_queue_family_index: 0xffff_ffff,
                    dst_queue_family_index: 0xffff_ffff,
                    buffer: 100,
                    offset: 0,
                    size: 0xffff_ffff_ffff_ffff,
                }
            );
            assert_eq!(buffers[1].buffer, 101);
            assert_eq!((buffers[1].src_access_mask, buffers[1].dst_access_mask), (7, 8));
            assert_eq!(
                image_memory_barriers.items(),
                &[vk::ImageMemoryBarrier {
                    s_type: vk::StructureType::ImageMemoryBarrier,
                    src_access_mask: 0,
                    dst_access_mask: 0x1000,
                    old_layout: vk::ImageLayout::Undefined,
                    new_layout: vk::ImageLayout::TransferDstOptimal,
                    src_queue_family_index: 0xffff_ffff,
                    dst_queue_family_index: 0xffff_ffff,
                    image: 200,
                    subresource_range: vk::ImageSubresourceRange {
                        aspect_mask: 1,
                        base_mip_level: 1,
                        level_count: 3,
                        base_array_layer: 2,
                        layer_count: 6,
                    },
                }]
            );
        }
        _ => panic!("another call"),
    }
}

#[test]
fn no_barriers_give_empty_lists() {
    let sorted = sort_barriers(&[]);
    assert!(sorted.global.items().is_empty());
    assert!(sorted.buffers.items().is_empty());
    assert!(sorted.images.items().is_empty());
}

#[test]
fn no_barrier_is_lost() {
    let mut barriers: Vec<Barrier> = Vec::new();
    for i in 0..30u32 {
        barriers.push(match i % 4 {
            0 => all_buffers(i, i),
            1 => on_image(i as u64),
            2 => on_buffer(i, i, i as u64),
            _ => all_images(i, i),
        });
    }
    let sorted = sort_barriers(&barriers);
    let total = sorted.global.items().len()
        + sorted.buffers.items().len()
        + sorted.images.items().len();
    assert_eq!(total, 30);
    let images: Vec<u64> = sorted.images.items().iter().map(|barrier| barrier.image).collect();
    assert_eq!(images, vec![1, 5, 9, 13, 17, 21, 25, 29]);
}

#[test]
fn barriers_in_two_parts_give_the_same_lists() {
    let first = [all_buffers(1, 2), on_buffer(3, 4, 5)];
    let second = [on_buffer(6, 7, 8), all_images(9, 10)];
    let both = [all_buffers(1, 2), on_buffer(3, 4, 5), on_buffer(6, 7, 8), all_images(9, 10)];
    let (a, b, c) = (sort_barriers(&first), sort_barriers(&second), sort_barriers(&both));
    let mut buffers = a.buffers.items().to_vec();
    buffers.extend_from_slice(b.buffers.items());
    assert_eq!(buffers.as_slice(), c.buffers.items());
    let mut global = a.global.items().to_vec();
    global.extend_from_slice(b.global.items());
    assert_eq!(global.as_slice(), c.global.items());
}

#[test]
fn unordered_ranges_are_told() {
    assert!(on_image(1).is_ordered());
    assert!(all_buffers(1, 2).is_ordered());
    let backwards = Barrier::Image {
        states: (image::Access { bits: 0 }, Layout::General)
            ..(image::Access { bits: 0 }, Layout::General),
        target: Image { raw: 1 },
        range: SubresourceRange {
            aspects: Aspects { color: true, depth: false, stencil: false },
            levels: 2..1,
            layers: 0..1,
        },
    };
    assert!(!backwards.is_ordered());
}
