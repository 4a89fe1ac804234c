use pira_wgpu::factories::render_pipeline::PrimitiveTopology;
use pira_wgpu::helpers::immediate_mode::{
    DrawCommand, DrawContext, DrawOp, GrowableBuffer, Growth, INITIAL_VERTEX_BUFFER_BYTES,
    MAX_TRANSFORMS, VERTEX_BYTES,
};

#[test]
fn vertex_buffer_starts_at_1024_bytes() {
    assert_eq!(INITIAL_VERTEX_BUFFER_BYTES, 1024);
    assert_eq!(VERTEX_BYTES, 48);
    assert_eq!(GrowableBuffer::new().capacity, 1024);
    assert_eq!(GrowableBuffer::required_bytes(0), Some(0));
    assert_eq!(GrowableBuffer::required_bytes(22), Some(1056));
    assert_eq!(GrowableBuffer::required_bytes(u64::MAX / 48), Some(u64::MAX / 48 * 48));
    assert_eq!(GrowableBuffer::required_bytes(u64::MAX / 48 + 1), None);
}

#[test]
fn ensure_capacity_grows_to_the_next_power_of_two() {
    let mut buffer = GrowableBuffer::new();
    assert_eq!(buffer.ensure_capacity(0), Growth::Kept);
    assert_eq!(buffer.ensure_capacity(1024), Growth::Kept);
    assert_eq!(buffer.capacity, 1024);
    assert_eq!(buffer.ensure_capacity(1025), Growth::Reallocated);
    assert_eq!(buffer.capacity, 2048);
    assert_eq!(buffer.ensure_capacity(1500), Growth::Kept);
    assert_eq!(buffer.capacity, 2048);
    assert_eq!(buffer.ensure_capacity(4096), Growth::Reallocated);
    assert_eq!(buffer.capacity, 4096);
    assert_eq!(buffer.ensure_capacity(100_000), Growth::Reallocated);
    assert_eq!(buffer.capacity, 131_072);
}

#[test]
fn ensure_capacity_reports_what_cannot_be_held() {
    let mut buffer = GrowableBuffer { capacity: 8 };
    assert_eq!(buffer.ensure_capacity((1 << 63) + 1), Growth::TooLarge);
    assert_eq!(buffer.capacity, 8);
    assert_eq!(buffer.ensure_capacity(u64::MAX), Growth::TooLarge);
    assert_eq!(buffer.capacity, 8);
    assert_eq!(buffer.ensure_capacity(1 << 63), Growth::Reallocated);
    assert_eq!(buffer.capacity, 1 << 63);
    let mut zero = GrowableBuffer { capacity: 0 };
    assert_eq!(zero.ensure_capacity(0), Growth::Kept);
    assert_eq!(zero.ensure_capacity(1), Growth::Reallocated);
    assert_eq!(zero.capacity, 1);
    assert_eq!(zero.ensure_capacity(3), Growth::Reallocated);
    assert_eq!(zero.capacity, 4);
}

#[test]
fn shapes_are_recorded_as_vertex_ranges() {
    let mut context = DrawContext::new();
    context.push_rect();
    context.push_line(3);
    context.push_circle(16);
    assert_eq!(context.vertex_count, 6 + 12 + 48);
    assert_eq!(
        context.commands,
        vec![
            DrawCommand {
                start_vertex: 0,
                end_vertex: 6,
                texture_id: None,
                transform_id: 0,
                pipeline_index: 0,
            },
            DrawCommand {
                start_vertex: 6,
                end_vertex: 18,
                texture_id: None,
                transform_id: 0,
                pipeline_index: 1,
            },
            DrawCommand {
                start_vertex: 18,
                end_vertex: 66,
                texture_id: None,
                transform_id: 0,
                pipeline_index: 0,
            },
        ]
    );
}

#[test]
fn lines_need_two_points() {
    let mut context = DrawContext::new();
    context.push_line(0);
    context.push_line(1);
    assert!(context.commands.is_empty());
    assert_eq!(context.vertex_count, 0);
    context.push_line(2);
    assert_eq!(context.vertex_count, 6);
    assert_eq!(context.commands.len(), 1);
    context.push_circle_stroke();
    assert_eq!(context.vertex_count, 6 + 96);
    assert_eq!(context.commands[1].pipeline_index, 1);
    assert_eq!((context.commands[1].start_vertex, context.commands[1].end_vertex), (6, 102));
}

#[test]
fn manual_shapes_follow_begin_and_end() {
    let mut context = DrawContext::new();
    context.set_draw_mode(PrimitiveTopology::TriangleStrip);
    context.begin_shape();
    context.push_vertex();
    context.push_vertex();
    context.push_vertex();
    context.push_vertices(2);
    context.end_shape();
    context.set_draw_mode(PrimitiveTopology::TriangleList);
    context.begin_shape();
    context.push_vertices(3);
    context.end_shape();
    assert_eq!(context.commands.len(), 2);
    assert_eq!((context.commands[0].start_vertex, context.commands[0].end_vertex), (0, 5));
    assert_eq!(context.commands[0].pipeline_index, 1);
    assert_eq!((context.commands[1].start_vertex, context.commands[1].end_vertex), (5, 8));
    assert_eq!(context.commands[1].pipeline_index, 0);
}

#[test]
fn textures_get_one_bind_group_each() {
    let mut context = DrawContext::new();
    assert!(context.push_texture(7));
    context.push_rect();
    assert!(context.push_texture(9));
    assert!(!context.push_texture(7));
    context.push_rect();
    context.pop_texture();
    context.push_rect();
    assert_eq!(context.textures, vec![7, 9]);
    assert_eq!(context.commands[0].texture_id, Some(7));
    assert_eq!(context.commands[1].texture_id, Some(7));
    assert_eq!(context.commands[2].texture_id, None);
    context.start();
    assert_eq!(context.textures, vec![7, 9]);
    assert!(!context.push_texture(9));
}

#[test]
fn transforms_are_numbered_from_one() {
    let mut context = DrawContext::new();
    assert_eq!(context.set_transform(), Some(1));
    context.push_rect();
    assert_eq!(context.set_transform(), Some(2));
    context.push_rect();
    context.clear_transform();
    context.push_rect();
    assert_eq!(context.commands[0].transform_id, 1);
    assert_eq!(context.commands[1].transform_id, 2);
    assert_eq!(context.commands[2].transform_id, 0);
    assert_eq!(context.last_transform_index, 2);
    for expected in 3..MAX_TRANSFORMS {
        assert_eq!(context.set_transform(), Some(expected));
    }
    assert_eq!(context.last_transform_index, 1023);
    assert_eq!(context.set_transform(), None);
    assert_eq!(context.last_transform_index, 1023);
    assert_eq!(context.last_draw_command.transform_id, 1023);
}

#[test]
fn start_forgets_the_frame() {
    let mut context = DrawContext::new();
    context.set_transform();
    context.push_texture(3);
    context.push_rect();
    context.vertex_buffer.ensure_capacity(5000);
    context.start();
    assert!(context.commands.is_empty());
    assert_eq!(context.vertex_count, 0);
    assert_eq!(context.last_transform_index, 0);
    assert_eq!(
        context.last_draw_command,
        DrawCommand {
            start_vertex: 0,
            end_vertex: 0,
            texture_id: None,
            transform_id: 0,
            pipeline_index: 0,
        }
    );
    assert_eq!(context.vertex_buffer.capacity, 8192);
}

#[test]
fn end_makes_room_for_the_vertices() {
    let mut context = DrawContext::new();
    context.push_vertices(21);
    assert_eq!(context.end(), Growth::Kept);
    assert_eq!(context.vertex_buffer.capacity, 1024);
    context.push_vertex();
    // 22 * 48 == 1056
    assert_eq!(context.end(), Growth::Reallocated);
    assert_eq!(context.vertex_buffer.capacity, 2048);
    assert_eq!(context.end(), Growth::Kept);
}

#[test]
fn draw_sets_the_pipeline_only_when_it_changes() {
    let mut context = DrawContext::new();
    context.push_rect();
    context.set_transform();
    context.push_texture(5);
    context.push_rect();
    context.push_line(2);
    let ops = context.draw(256);
    assert_eq!(
        ops,
        vec![
            DrawOp::SetPipeline(0),
            DrawOp::SetUniforms { pipeline_index: 0, offset: 0 },
            DrawOp::SetTexture { pipeline_index: 0, texture_id: None },
            DrawOp::Draw { start: 0, end: 6 },
            DrawOp::SetUniforms { pipeline_index: 0, offset: 256 },
            DrawOp::SetTexture { pipeline_index: 0, texture_id: Some(5) },
            DrawOp::Draw { start: 6, end: 12 },
            DrawOp::SetPipeline(1),
            DrawOp::SetUniforms { pipeline_index: 1, offset: 256 },
            DrawOp::SetTexture { pipeline_index: 1, texture_id: Some(5) },
            DrawOp::Draw { start: 12, end: 18 },
        ]
    );
    assert!(DrawContext::new().draw(256).is_empty());
}

#[test]
fn draw_offsets_do_not_wrap() {
    let mut context = DrawContext::new();
    for _ in 1..MAX_TRANSFORMS {
        context.set_transform();
    }
    context.push_rect();
    let ops = context.draw(u32::MAX);
    assert_eq!(
        ops[1],
        DrawOp::SetUniforms { pipeline_index: 0, offset: 1023 * (u32::MAX as u64) }
    );
}
