use vulkan_command::call::DeviceCall;
use vulkan_command::command::{map_subpass_contents, CommandBuffer};
use vulkan_command::constants::{cast_words, ByteOrder};
use vulkan_command::hal::buffer::{IndexBufferView, IndexType};
use vulkan_command::hal::command::{CommandBufferFlags, ClearValueRaw, SubpassContents};
use vulkan_command::hal::pso::{PipelineStage, Rect, ShaderStageFlags, VertexBufferSet, Viewport};
use vulkan_command::hal::query::{Query, QueryControl};
use vulkan_command::native::{
    Buffer, ComputePipeline, DescriptorSet, Framebuffer, GraphicsPipeline, PipelineLayout,
    QueryPool, RenderPass,
};
use vulkan_command::vk;

const RAW: usize = 0x1234;

fn commands() -> CommandBuffer {
    CommandBuffer { raw: RAW }
}

#[test]
fn begin_hands_over_the_usage() {
    match commands().begin(CommandBufferFlags { bits: 0b101 }) {
        DeviceCall::BeginCommandBuffer { command_buffer, info } => {
            assert_eq!(command_buffer, RAW);
            assert_eq!(info.s_type, vk::StructureType::CommandBufferBeginInfo);
            assert_eq!(info.flags, 0b101);
        }
        _ => panic!("another call"),
    }
}

#[test]
fn finish_ends_this_command_buffer() {
    match commands().finish() {
        DeviceCall::EndCommandBuffer { command_buffer } => assert_eq!(command_buffer, RAW),
        _ => panic!("another call"),
    }
}

#[test]
fn reset_releases_resources_on_demand() {
    match commands().reset(true) {
        DeviceCall::ResetCommandBuffer { command_buffer, flags } => {
            assert_eq!(command_buffer, RAW);
            assert_eq!(flags, 1);
        }
        _ => panic!("another call"),
    }
    match commands().reset(false) {
        DeviceCall::ResetCommandBuffer { flags, .. } => assert_eq!(flags, 0),
        _ => panic!("another call"),
    }
}

#[test]
fn render_pass_begins_with_area_and_clear_values() {
    let values = [ClearValueRaw { words: [1, 2, 3, 4] }, ClearValueRaw { words: [5, 6, 7, 8] }];
    let call = commands().begin_render_pass_raw(
        &RenderPass { raw: 10 },
        &Framebuffer { raw: 11 },
        Rect { x: 1, y: 2, w: 65535, h: 4 },
        &values,
        SubpassContents::SecondaryBuffers,
    );
    match call {
        DeviceCall::BeginRenderPass { command_buffer, info, contents } => {
            assert_eq!(command_buffer, RAW);
            assert_eq!(info.s_type, vk::StructureType::RenderPassBeginInfo);
            assert_eq!(info.render_pass, 10);
            assert_eq!(info.framebuffer, 11);
            assert_eq!(info.render_area.offset, vk::Offset2D { x: 1, y: 2 });
            assert_eq!(info.render_area.extent, vk::Extent2D { width: 65535, height: 4 });
            assert_eq!(info.clear_value_count, 2);
            assert_eq!(
                info.clear_values.items(),
                &[
                    vk::ClearValue::Color(vk::ClearColorValue { words: [1, 2, 3, 4] }),
                    vk::ClearValue::Color(vk::ClearColorValue { words: [5, 6, 7, 8] }),
                ]
            );
            assert_eq!(contents, vk::SubpassContents::SecondaryCommandBuffers);
        }
        _ => panic!("another call"),
    }
}

#[test]
fn render_pass_without_clear_values() {
    let call = commands().begin_render_pass_raw(
        &RenderPass { raw: 10 },
        &Framebuffer { raw: 11 },
        Rect { x: 0, y: 0, w: 0, h: 0 },
        &[],
        SubpassContents::Inline,
    );
    match call {
        DeviceCall::BeginRenderPass { info, contents, .. } => {
            assert_eq!(info.clear_value_count, 0);
            assert!(info.clear_values.items().is_empty());
            assert_eq!(contents, vk::SubpassContents::Inline);
        }
        _ => panic!("another call"),
    }
}

#[test]
fn subpasses_follow_each_other() {
    match commands().next_subpass(SubpassContents::Inline) {
        DeviceCall::NextSubpass { command_buffer, contents } => {
            assert_eq!(command_buffer, RAW);
            assert_eq!(contents, vk::SubpassContents::Inline);
        }
        _ => panic!("another call"),
    }
    match commands().end_render_pass() {
        DeviceCall::EndRenderPass { command_buffer } => assert_eq!(command_buffer, RAW),
        _ => panic!("another call"),
    }
}

#[test]
fn subpass_contents_keep_their_kind() {
    assert_eq!(map_subpass_contents(SubpassContents::Inline), vk::SubpassContents::Inline);
    assert_eq!(
        map_subpass_contents(SubpassContents::SecondaryBuffers),
        vk::SubpassContents::SecondaryCommandBuffers
    );
}

#[test]
fn fill_takes_start_and_length() {
    match commands().fill_buffer(&Buffer { raw: 7 }, 16..48, 0xdead_beef) {
        DeviceCall::FillBuffer { command_buffer, buffer, offset, size, data } => {
            assert_eq!(command_buffer, RAW);
            assert_eq!(buffer, 7);
            assert_eq!(offset, 16);
            assert_eq!(size, 32);
            assert_eq!(data, 0xdead_beef);
        }
        _ => panic!("another call"),
    }
}

#[test]
fn fill_of_nothing_and_of_everything() {
    match commands().fill_buffer(&Buffer { raw: 7 }, 5..5, 0) {
        DeviceCall::FillBuffer { offset, size, .. } => assert_eq!((offset, size), (5, 0)),
        _ => panic!("another call"),
    }
    match commands().fill_buffer(&Buffer { raw: 7 }, 0..u64::MAX, 0) {
        DeviceCall::FillBuffer { offset, size, .. } => assert_eq!((offset, size), (0, u64::MAX)),
        _ => panic!("another call"),
    }
}

#[test]
fn update_hands_over_the_bytes() {
    let data = [1u8, 2, 3];
    match commands().update_buffer(&Buffer { raw: 7 }, 12, &data) {
        DeviceCall::UpdateBuffer { command_buffer, buffer, offset, data } => {
            assert_eq!(command_buffer, RAW);
            assert_eq!(buffer, 7);
            assert_eq!(offset, 12);
            assert_eq!(data, &[1, 2, 3]);
        }
        _ => panic!("another call"),
    }
}

#[test]
fn index_buffer_is_bound_with_its_width() {
    let view = |index_type| IndexBufferView { buffer: Buffer { raw: 3 }, offset: 64, index_type };
    match commands().bind_index_buffer(view(IndexType::U16)) {
        DeviceCall::BindIndexBuffer { command_buffer, buffer, offset, index_type } => {
            assert_eq!(command_buffer, RAW);
            assert_eq!(buffer, 3);
            assert_eq!(offset, 64);
            assert_eq!(index_type, vk::IndexType::Uint16);
        }
        _ => panic!("another call"),
    }
    match commands().bind_index_buffer(view(IndexType::U32)) {
        DeviceCall::BindIndexBuffer { index_type, .. } => {
            assert_eq!(index_type, vk::IndexType::Uint32)
        }
        _ => panic!("another call"),
    }
}

#[test]
fn vertex_buffers_are_bound_from_zero_on() {
    let vbs = VertexBufferSet(vec![(Buffer { raw: 5 }, 0), (Buffer { raw: 9 }, 128)]);
    match commands().bind_vertex_buffers(vbs) {
        DeviceCall::BindVertexBuffers { command_buffer, first_binding, buffers, offsets } => {
            assert_eq!(command_buffer, RAW);
            assert_eq!(first_binding, 0);
            assert_eq!(buffers.items(), &[5, 9]);
            assert_eq!(offsets.items(), &[0, 128]);
        }
        _ => panic!("another call"),
    }
}

#[test]
fn more_vertex_buffers_than_fit_on_the_stack() {
    let vbs = VertexBufferSet((0..40).map(|i| (Buffer { raw: i }, i as usize * 2)).collect());
    match commands().bind_vertex_buffers(vbs) {
        DeviceCall::BindVertexBuffers { buffers, offsets, .. } => {
            assert_eq!(buffers.items(), (0..40).collect::<Vec<u64>>().as_slice());
            assert_eq!(offsets.items(), (0..40).map(|i| i * 2).collect::<Vec<u64>>().as_slice());
        }
        _ => panic!("another call"),
    }
}

#[test]
fn viewports_keep_place_size_and_depths() {
    let depth = 0.25f32.to_bits()..1.0f32.to_bits();
    let viewports = [Viewport { rect: Rect { x: 1, y: 2, w: 3, h: 4 }, depth }];
    match commands().set_viewports(&viewports) {
        DeviceCall::SetViewport { command_buffer, first_viewport, viewports } => {
            assert_eq!(command_buffer, RAW);
            assert_eq!(first_viewport, 0);
            assert_eq!(
                viewports.items(),
                &[vk::Viewport {
                    x: 1,
                    y: 2,
                    width: 3,
                    height: 4,
                    min_depth: 0x3e80_0000,
                    max_depth: 0x3f80_0000,
                }]
            );
        }
        _ => panic!("another call"),
    }
}

#[test]
fn scissors_are_rectangles() {
    let scissors = [Rect { x: 1, y: 2, w: 3, h: 4 }, Rect { x: 65535, y: 0, w: 0, h: 65535 }];
    match commands().set_scissors(&scissors) {
        DeviceCall::SetScissor { command_buffer, scissors } => {
            assert_eq!(command_buffer, RAW);
            assert_eq!(
                scissors.items(),
                &[
                    vk::Rect2D {
                        offset: vk::Offset2D { x: 1, y: 2 },
                        extent: vk::Extent2D { width: 3, height: 4 },
                    },
                    vk::Rect2D {
                        offset: vk::Offset2D { x: 65535, y: 0 },
                        extent: vk::Extent2D { width: 0, height: 65535 },
                    },
                ]
            );
        }
        _ => panic!("another call"),
    }
}

fn stencil(call: &DeviceCall) -> (usize, u32, u32) {
    match *call {
        DeviceCall::SetStencilReference { command_buffer, face_mask, reference } => {
            (command_buffer, face_mask, reference)
        }
        _ => panic!("another call"),
    }
}

#[test]
fn equal_stencil_references_take_one_call() {
    let calls = commands().set_stencil_reference(9, 9);
    assert_eq!(calls.len(), 1);
    assert_eq!(stencil(&calls[0]), (RAW, 3, 9));
}

#[test]
fn different_stencil_references_take_two_calls() {
    let calls = commands().set_stencil_reference(1, 2);
    assert_eq!(calls.len(), 2);
    assert_eq!(stencil(&calls[0]), (RAW, 1, 1));
    assert_eq!(stencil(&calls[1]), (RAW, 2, 2));
}

#[test]
fn stencil_references_end_up_as_given() {
    for &(front, back) in &[(0u32, 0u32), (1, 2), (7, 7), (u32::MAX, 0)] {
        let mut references = (100u32, 200u32);
        for call in commands().set_stencil_reference(front, back) {
            let (_, mask, reference) = stencil(&call);
            if mask & 1 != 0 {
                references.0 = reference;
            }
            if mask & 2 != 0 {
                references.1 = reference;
            }
        }
        assert_eq!(references, (front, back));
    }
}

#[test]
fn blend_constants_keep_their_bits() {
    let color = [0.5f32.to_bits(), 1.0f32.to_bits(), 0, f32::NAN.to_bits()];
    match commands().set_blend_constants(color) {
        DeviceCall::SetBlendConstants { command_buffer, blend_constants } => {
            assert_eq!(command_buffer, RAW);
            assert_eq!(blend_constants, color);
        }
        _ => panic!("another call"),
    }
}

#[test]
fn pipelines_are_bound_by_kind() {
    match commands().bind_graphics_pipeline(&GraphicsPipeline(21)) {
        DeviceCall::BindPipeline { command_buffer, pipeline_bind_point, pipeline } => {
            assert_eq!(command_buffer, RAW);
            assert_eq!(pipeline_bind_point, vk::PipelineBindPoint::Graphics);
            assert_eq!(pipeline, 21);
        }
        _ => panic!("another call"),
    }
    match commands().bind_compute_pipeline(&ComputePipeline(22)) {
        DeviceCall::BindPipeline { command_buffer, pipeline_bind_point, pipeline } => {
            assert_eq!(command_buffer, RAW);
            assert_eq!(pipeline_bind_point, vk::PipelineBindPoint::Compute);
            assert_eq!(pipeline, 22);
        }
        _ => panic!("another call"),
    }
}

fn bound_sets(call: DeviceCall) -> (vk::PipelineBindPoint, u64, u32, Vec<u64>, usize) {
    match call {
        DeviceCall::BindDescriptorSets {
            command_buffer,
            pipeline_bind_point,
            layout,
            first_set,
            descriptor_sets,
            dynamic_offsets,
        } => {
            assert_eq!(command_buffer, RAW);
            (
                pipeline_bind_point,
                layout,
                first_set,
                descriptor_sets.items().to_vec(),
                dynamic_offsets.len(),
            )
        }
        _ => panic!("another call"),
    }
}

#[test]
fn descriptor_sets_are_bound_by_kind() {
    let layout = PipelineLayout { raw: 30 };
    let sets = [DescriptorSet { raw: 31 }, DescriptorSet { raw: 32 }, DescriptorSet { raw: 33 }];
    let graphics = bound_sets(commands().bind_graphics_descriptor_sets(&layout, 2, &sets));
    let compute = bound_sets(commands().bind_compute_descriptor_sets(&layout, 2, &sets));
    assert_eq!(graphics, (vk::PipelineBindPoint::Graphics, 30, 2, vec![31, 32, 33], 0));
    assert_eq!(compute, (vk::PipelineBindPoint::Compute, 30, 2, vec![31, 32, 33], 0));
}

#[test]
fn dispatch_counts_by_dimension() {
    match commands().dispatch([3, 5, 7]) {
        DeviceCall::Dispatch { command_buffer, group_count_x, group_count_y, group_count_z } => {
            assert_eq!(command_buffer, RAW);
            assert_eq!((group_count_x, group_count_y, group_count_z), (3, 5, 7));
        }
        _ => panic!("another call"),
    }
    match commands().dispatch_indirect(&Buffer { raw: 4 }, 256) {
        DeviceCall::DispatchIndirect { command_buffer, buffer, offset } => {
            assert_eq!((command_buffer, buffer, offset), (RAW, 4, 256));
        }
        _ => panic!("another call"),
    }
}

#[test]
fn draw_takes_first_and_count() {
    match commands().draw(10..16, 2..3) {
        DeviceCall::Draw {
            command_buffer,
            vertex_count,
            instance_count,
            first_vertex,
            first_instance,
        } => {
            assert_eq!(command_buffer, RAW);
            assert_eq!((first_vertex, vertex_count), (10, 6));
            assert_eq!((first_instance, instance_count), (2, 1));
        }
        _ => panic!("another call"),
    }
}

#[test]
fn draw_of_nothing_and_of_all() {
    match commands().draw(4..4, 0..u32::MAX) {
        DeviceCall::Draw { vertex_count, instance_count, .. } => {
            assert_eq!((vertex_count, instance_count), (0, u32::MAX));
        }
        _ => panic!("another call"),
    }
}

#[test]
fn draw_indexed_takes_a_base_vertex() {
    match commands().draw_indexed(3..9, -5, 1..4) {
        DeviceCall::DrawIndexed {
            command_buffer,
            index_count,
            instance_count,
            first_index,
            vertex_offset,
            first_instance,
        } => {
            assert_eq!(command_buffer, RAW);
            assert_eq!((first_index, index_count), (3, 6));
            assert_eq!(vertex_offset, -5);
            assert_eq!((first_instance, instance_count), (1, 3));
        }
        _ => panic!("another call"),
    }
}

#[test]
fn indirect_draws_read_a_buffer() {
    match commands().draw_indirect(&Buffer { raw: 6 }, 8, 2, 16) {
        DeviceCall::DrawIndirect { command_buffer, buffer, offset, draw_count, stride } => {
            assert_eq!((command_buffer, buffer, offset), (RAW, 6, 8));
            assert_eq!((draw_count, stride), (2, 16));
        }
        _ => panic!("another call"),
    }
    match commands().draw_indexed_indirect(&Buffer { raw: 6 }, 8, 2, 20) {
        DeviceCall::DrawIndexedIndirect { command_buffer, buffer, offset, draw_count, stride } => {
            assert_eq!((command_buffer, buffer, offset), (RAW, 6, 8));
            assert_eq!((draw_count, stride), (2, 20));
        }
        _ => panic!("another call"),
    }
}

#[test]
fn queries_may_be_precise() {
    let query = Query { pool: QueryPool(50), id: 3 };
    match commands().begin_query(query, QueryControl { precise: true }) {
        DeviceCall::BeginQuery { command_buffer, query_pool, query, flags } => {
            assert_eq!((command_buffer, query_pool, query, flags), (RAW, 50, 3, 1));
        }
        _ => panic!("another call"),
    }
    match commands().begin_query(query, QueryControl { precise: false }) {
        DeviceCall::BeginQuery { flags, .. } => assert_eq!(flags, 0),
        _ => panic!("another call"),
    }
    match commands().end_query(query) {
        DeviceCall::EndQuery { command_buffer, query_pool, query } => {
            assert_eq!((command_buffer, query_pool, query), (RAW, 50, 3));
        }
        _ => panic!("another call"),
    }
}

#[test]
fn query_pool_is_reset_in_part() {
    match commands().reset_query_pool(&QueryPool(50), 4..10) {
        DeviceCall::ResetQueryPool { command_buffer, query_pool, first_query, query_count } => {
            assert_eq!((command_buffer, query_pool), (RAW, 50));
            assert_eq!((first_query, query_count), (4, 6));
        }
        _ => panic!("another call"),
    }
}

#[test]
fn timestamp_is_written_at_a_stage() {
    let query = Query { pool: QueryPool(50), id: 3 };
    match commands().write_timestamp(PipelineStage { bits: 0x2000 }, query) {
        DeviceCall::WriteTimestamp { command_buffer, pipeline_stage, query_pool, query } => {
            assert_eq!((command_buffer, pipeline_stage), (RAW, 0x2000));
            assert_eq!((query_pool, query), (50, 3));
        }
        _ => panic!("another call"),
    }
}

fn pushed<'a>(call: DeviceCall<'a>) -> (usize, u64, u32, u32, &'a [u32]) {
    match call {
        DeviceCall::PushConstants { command_buffer, layout, stage_flags, offset, values } => {
            (command_buffer, layout, stage_flags, offset, values)
        }
        _ => panic!("another call"),
    }
}

#[test]
fn constants_are_pushed_at_a_byte_offset() {
    let layout = PipelineLayout { raw: 60 };
    let constants = [1u32, 2, 3];
    let compute = commands().push_compute_constants(&layout, 5, &constants);
    assert_eq!(pushed(compute), (RAW, 60, 0x20, 20, &constants[..]));
    let stages = ShaderStageFlags { bits: 0x11 };
    let graphics = commands().push_graphics_constants(&layout, stages, 0x3fff_ffff, &constants);
    assert_eq!(pushed(graphics), (RAW, 60, 0x11, 0xffff_fffc, &constants[..]));
}

#[test]
fn compute_constants_are_constants_of_a_stage() {
    let layout = PipelineLayout { raw: 60 };
    let constants = [7u32];
    let stages = ShaderStageFlags { bits: vk::SHADER_STAGE_COMPUTE };
    assert_eq!(
        pushed(commands().push_compute_constants(&layout, 1, &constants)),
        pushed(commands().push_graphics_constants(&layout, stages, 1, &constants))
    );
}

#[test]
fn secondary_command_buffers_run_in_order() {
    let buffers = [CommandBuffer { raw: 8 }, CommandBuffer { raw: 4 }, CommandBuffer { raw: 8 }];
    match commands().execute_commands(&buffers) {
        DeviceCall::ExecuteCommands { command_buffer, command_buffers } => {
            assert_eq!(command_buffer, RAW);
            assert_eq!(command_buffers, vec![8, 4, 8]);
        }
        _ => panic!("another call"),
    }
}

#[test]
fn constants_are_bytes_in_either_order() {
    let words = [0x0102_0304u32, 0xfffe_fdfc];
    assert_eq!(
        cast_words(&words, ByteOrder::LittleEndian),
        vec![0x04, 0x03, 0x02, 0x01, 0xfc, 0xfd, 0xfe, 0xff]
    );
    assert_eq!(
        cast_words(&words, ByteOrder::BigEndian),
        vec![0x01, 0x02, 0x03, 0x04, 0xff, 0xfe, 0xfd, 0xfc]
    );
    assert!(cast_words(&[], ByteOrder::LittleEndian).is_empty());
}

#[test]
fn bytes_of_constants_are_those_in_memory() {
    for &word in &[0u32, 1, 0x8000_0000, 0x1234_5678, u32::MAX] {
        assert_eq!(cast_words(&[word], ByteOrder::LittleEndian), word.to_le_bytes().to_vec());
        assert_eq!(cast_words(&[word], ByteOrder::BigEndian), word.to_be_bytes().to_vec());
    }
}

#[test]
fn constants_pushed_in_parts_are_the_same() {
    let layout = PipelineLayout { raw: 60 };
    let stages = ShaderStageFlags { bits: 1 };
    let words = [11u32, 22, 33, 44, 55];
    let write = |memory: &mut Vec<u8>, offset: u32, part: &[u32]| {
        let call = commands().push_graphics_constants(&layout, stages, offset, part);
        let (_, _, _, offset, values) = pushed(call);
        let bytes = cast_words(values, ByteOrder::LittleEndian);
        memory[offset as usize..offset as usize + bytes.len()].copy_from_slice(&bytes);
    };
    let mut whole = vec![0xaau8; 40];
    write(&mut whole, 2, &words);
    let mut parts = vec![0xaau8; 40];
    write(&mut parts, 2, &words[..3]);
    write(&mut parts, 5, &words[3..]);
    assert_eq!(whole, parts);
    assert_eq!(&whole[..12], &[0xaa, 0xaa, 0xaa, 0xaa, 0xaa, 0xaa, 0xaa, 0xaa, 11, 0, 0, 0]);
}
