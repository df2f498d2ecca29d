use wgpu::{
    BufferCopyView, BufferSize, BufferSlice, Command, CommandBuffer, CommandEncoder,
    CommandEncoderDescriptor, ComputeCommand, EncoderEvent, EncoderState, Extent3d, Origin3d,
    PassKind, RecordError, RenderBundleDescriptor, RenderBundleEncoder, RenderCommand,
    ShaderStage, TextureCopyView, TextureDataLayout,
};

fn encoder() -> CommandEncoder {
    CommandEncoder::new(&CommandEncoderDescriptor { label: Some("encoder") })
}

const EVENTS: [EncoderEvent; 6] = [
    EncoderEvent::Record,
    EncoderEvent::Begin(PassKind::Render),
    EncoderEvent::Begin(PassKind::Compute),
    EncoderEvent::End(PassKind::Render),
    EncoderEvent::End(PassKind::Compute),
    EncoderEvent::Finish,
];

#[test]
fn new_encoder_takes_everything_but_the_end_of_a_pass() {
    let encoder = encoder();
    assert_eq!(encoder.state(), EncoderState::Encoding);
    assert_eq!(encoder.check(EncoderEvent::Record), Ok(()));
    assert_eq!(encoder.check(EncoderEvent::Begin(PassKind::Render)), Ok(()));
    assert_eq!(encoder.check(EncoderEvent::Begin(PassKind::Compute)), Ok(()));
    assert_eq!(encoder.check(EncoderEvent::Finish), Ok(()));
    assert_eq!(encoder.check(EncoderEvent::End(PassKind::Render)), Err(RecordError::NotTheOpenPass));
    assert_eq!(encoder.check(EncoderEvent::End(PassKind::Compute)), Err(RecordError::NotTheOpenPass));
}

#[test]
fn copy_is_refused_while_a_render_pass_is_open() {
    let mut encoder = encoder();
    let mut pass = encoder.begin_render_pass();
    assert_eq!(pass.encoder().unwrap().state(), EncoderState::PassOpen(PassKind::Render));
    assert_eq!(
        pass.encoder().unwrap().check(EncoderEvent::Record),
        Err(RecordError::PassOpen(PassKind::Render))
    );
    assert!(pass.end());
    assert!(pass.encoder().is_none());
    assert_eq!(encoder.check(EncoderEvent::Record), Ok(()));
    let command = encoder.copy_buffer_to_buffer("source", 0, "destination", 16, 64);
    assert_eq!(
        command,
        Command::CopyBufferToBuffer {
            source: "source",
            source_offset: 0,
            destination: "destination",
            destination_offset: 16,
            copy_size: 64,
        }
    );
    assert_eq!(encoder.state(), EncoderState::Encoding);
}

fn expected_while_open(kind: PassKind, event: EncoderEvent) -> Result<(), RecordError> {
    if event == EncoderEvent::End(kind) {
        Ok(())
    } else if matches!(event, EncoderEvent::End(_)) {
        Err(RecordError::NotTheOpenPass)
    } else {
        Err(RecordError::PassOpen(kind))
    }
}

#[test]
fn open_render_pass_excludes_everything_but_its_own_end() {
    let mut encoder = encoder();
    let mut pass = encoder.begin_render_pass();
    assert_eq!(pass.encoder().unwrap().state(), EncoderState::PassOpen(PassKind::Render));
    for event in EVENTS {
        assert_eq!(pass.encoder().unwrap().check(event), expected_while_open(PassKind::Render, event));
    }
    assert!(pass.end());
    assert_eq!(encoder.state(), EncoderState::Encoding);
    assert_eq!(encoder.check(EncoderEvent::Begin(PassKind::Render)), Ok(()));
    assert_eq!(encoder.check(EncoderEvent::Begin(PassKind::Compute)), Ok(()));
}

#[test]
fn open_compute_pass_excludes_everything_but_its_own_end() {
    let mut encoder = encoder();
    let mut pass = encoder.begin_compute_pass();
    assert_eq!(pass.encoder().unwrap().state(), EncoderState::PassOpen(PassKind::Compute));
    for event in EVENTS {
        assert_eq!(pass.encoder().unwrap().check(event), expected_while_open(PassKind::Compute, event));
    }
    assert!(pass.end());
    assert_eq!(encoder.state(), EncoderState::Encoding);
    assert_eq!(encoder.check(EncoderEvent::Begin(PassKind::Render)), Ok(()));
    assert_eq!(encoder.check(EncoderEvent::Finish), Ok(()));
}

#[test]
fn pass_that_is_never_ended_keeps_the_encoder() {
    let mut encoder = encoder();
    encoder.begin_render_pass();
    assert_eq!(encoder.state(), EncoderState::PassOpen(PassKind::Render));
    for event in EVENTS {
        assert_eq!(encoder.check(event), expected_while_open(PassKind::Render, event));
    }
}

#[test]
fn ending_a_pass_twice_forwards_one_end() {
    let mut encoder = encoder();
    let mut pass = encoder.begin_render_pass();
    assert_eq!(pass.check_record(), Ok(()));
    let forwarded = [pass.end(), pass.end(), pass.end()];
    assert_eq!(forwarded, [true, false, false]);
    assert_eq!(pass.check_record(), Err(RecordError::PassEnded));
    assert!(pass.encoder().is_none());
    assert_eq!(encoder.state(), EncoderState::Encoding);

    let mut compute = encoder.begin_compute_pass();
    assert_eq!(compute.check_record(), Ok(()));
    assert!(compute.end());
    assert!(!compute.end());
    assert_eq!(compute.check_record(), Err(RecordError::PassEnded));
    assert_eq!(encoder.state(), EncoderState::Encoding);
}

#[test]
fn pass_released_while_unwinding_forwards_no_end() {
    let mut encoder = encoder();
    let mut pass = encoder.begin_render_pass();
    assert!(!pass.release(true));
    assert_eq!(pass.check_record(), Err(RecordError::PassEnded));
    assert!(pass.encoder().is_none());
    assert!(!pass.release(false));
    assert!(!pass.end());
    assert_eq!(encoder.state(), EncoderState::PassOpen(PassKind::Render));
    assert_eq!(
        encoder.check(EncoderEvent::Record),
        Err(RecordError::PassOpen(PassKind::Render))
    );

    let mut other = CommandEncoder::new(&CommandEncoderDescriptor::default());
    let mut compute = other.begin_compute_pass();
    assert!(!compute.release(true));
    assert!(!compute.release(true));
    assert_eq!(other.state(), EncoderState::PassOpen(PassKind::Compute));
}

#[test]
fn pass_released_in_good_order_forwards_one_end() {
    let mut encoder = encoder();
    let mut pass = encoder.begin_render_pass();
    assert!(pass.release(false));
    assert!(!pass.release(false));
    assert!(!pass.release(true));
    assert_eq!(encoder.state(), EncoderState::Encoding);
    let mut compute = encoder.begin_compute_pass();
    assert!(compute.release(false));
    assert!(!compute.end());
    assert_eq!(encoder.state(), EncoderState::Encoding);
}

#[test]
fn encoder_opens_one_pass_after_the_other() {
    let mut encoder = encoder();
    for _ in 0..3 {
        let mut render = encoder.begin_render_pass();
        assert!(render.end());
        let mut compute = encoder.begin_compute_pass();
        assert_eq!(compute.encoder().unwrap().state(), EncoderState::PassOpen(PassKind::Compute));
        assert!(compute.end());
        assert!(!compute.end());
    }
    assert_eq!(encoder.state(), EncoderState::Encoding);
    assert_eq!(encoder.check(EncoderEvent::Finish), Ok(()));
}

#[test]
fn encoder_is_finished_once() {
    let mut encoder = encoder();
    assert_eq!(encoder.check(EncoderEvent::Finish), Ok(()));
    let buffer = encoder.finish(41u32);
    assert!(!buffer.is_submitted());
    assert_eq!(encoder.state(), EncoderState::Finished);
    for event in EVENTS {
        assert_eq!(encoder.check(event), Err(RecordError::Finished));
    }
    assert_eq!(buffer.release(false), Some(41));
}

#[test]
fn finish_is_refused_while_a_pass_is_open() {
    let mut encoder = encoder();
    let mut pass = encoder.begin_compute_pass();
    assert_eq!(
        pass.encoder().unwrap().check(EncoderEvent::Finish),
        Err(RecordError::PassOpen(PassKind::Compute))
    );
    assert_eq!(
        pass.encoder().unwrap().check(EncoderEvent::Begin(PassKind::Render)),
        Err(RecordError::PassOpen(PassKind::Compute))
    );
    assert!(pass.end());
    assert_eq!(encoder.check(EncoderEvent::Finish), Ok(()));
    assert_eq!(encoder.finish(1u8).release(false), Some(1));
    assert_eq!(encoder.check(EncoderEvent::Finish), Err(RecordError::Finished));
}

#[test]
fn command_buffer_is_submitted_once() {
    let mut encoder = encoder();
    let mut buffer: CommandBuffer<&str> = encoder.finish("commands");
    assert!(!buffer.is_submitted());
    assert_eq!(buffer.take(), Some("commands"));
    assert!(buffer.is_submitted());
    assert_eq!(buffer.take(), None);
    assert_eq!(buffer.take(), None);
    assert_eq!(buffer.release(false), None);
}

#[test]
fn command_buffer_gives_its_handle_back_unless_submitted_or_unwinding() {
    assert_eq!(encoder().finish(1u8).release(false), Some(1));
    assert_eq!(encoder().finish(1u8).release(true), None);
    let mut submitted = encoder().finish(1u8);
    submitted.take();
    assert_eq!(submitted.release(true), None);
}

#[test]
fn encoder_commands_are_handed_back_as_given() {
    let mut encoder = encoder();
    let layout = TextureDataLayout { offset: 8, bytes_per_row: 256, rows_per_image: 4 };
    let buffer = BufferCopyView { buffer: 1u32, layout };
    let texture = TextureCopyView { texture: 2u32, mip_level: 3, origin: Origin3d { x: 1, y: 2, z: 3 } };
    let other = TextureCopyView { texture: 5u32, mip_level: 0, origin: Origin3d { x: 0, y: 0, z: 0 } };
    let size = Extent3d { width: 4, height: 5, depth: 6 };
    assert_eq!(
        encoder.copy_buffer_to_texture(buffer, texture, size),
        Command::CopyBufferToTexture { source: buffer, destination: texture, copy_size: size }
    );
    assert_eq!(
        encoder.copy_texture_to_buffer(texture, buffer, size),
        Command::CopyTextureToBuffer { source: texture, destination: buffer, copy_size: size }
    );
    assert_eq!(
        encoder.copy_texture_to_texture(texture, other, size),
        Command::CopyTextureToTexture { source: texture, destination: other, copy_size: size }
    );
    assert_eq!(encoder.insert_debug_marker::<u32>("here"), Command::InsertDebugMarker("here"));
    assert_eq!(encoder.push_debug_group::<u32>("group"), Command::PushDebugGroup("group"));
    assert_eq!(encoder.pop_debug_group::<u32>(), Command::PopDebugGroup);
    assert_eq!(encoder.state(), EncoderState::Encoding);
}

#[test]
fn render_pass_commands_are_handed_back_as_given() {
    let mut encoder = encoder();
    let mut pass = encoder.begin_render_pass();
    let offsets = [256u32, 512];
    let data = [1u32, 2, 3];
    let bundles = [10u32, 11];
    let slice = BufferSlice { offset: 16, size: BufferSize::new(48) };
    let rest = BufferSlice { offset: 32, size: None };
    assert_eq!(
        pass.set_bind_group(2, 7u32, &offsets),
        RenderCommand::SetBindGroup { index: 2, bind_group: 7, offsets: &offsets }
    );
    assert_eq!(pass.set_pipeline(9u32), RenderCommand::SetPipeline(9));
    assert_eq!(
        pass.set_index_buffer(3u32, slice),
        RenderCommand::SetIndexBuffer { buffer: 3, offset: 16, size: BufferSize::new(48) }
    );
    assert_eq!(
        pass.set_vertex_buffer(1, 4u32, rest),
        RenderCommand::SetVertexBuffer { slot: 1, buffer: 4, offset: 32, size: None }
    );
    assert_eq!(pass.draw::<u32>(0..3, 0..1), RenderCommand::Draw { vertices: 0..3, instances: 0..1 });
    assert_eq!(
        pass.draw_indexed::<u32>(3..9, -2, 1..4),
        RenderCommand::DrawIndexed { indices: 3..9, base_vertex: -2, instances: 1..4 }
    );
    assert_eq!(
        pass.draw_indirect(5u32, 64),
        RenderCommand::DrawIndirect { indirect_buffer: 5, indirect_offset: 64 }
    );
    assert_eq!(
        pass.draw_indexed_indirect(5u32, 80),
        RenderCommand::DrawIndexedIndirect { indirect_buffer: 5, indirect_offset: 80 }
    );
    assert_eq!(
        pass.multi_draw_indirect(5u32, 64, 3),
        RenderCommand::MultiDrawIndirect { indirect_buffer: 5, indirect_offset: 64, count: 3 }
    );
    assert_eq!(
        pass.multi_draw_indexed_indirect(5u32, 64, 4),
        RenderCommand::MultiDrawIndexedIndirect { indirect_buffer: 5, indirect_offset: 64, count: 4 }
    );
    assert_eq!(
        pass.multi_draw_indirect_count(5u32, 64, 6, 8, 100),
        RenderCommand::MultiDrawIndirectCount {
            indirect_buffer: 5,
            indirect_offset: 64,
            count_buffer: 6,
            count_offset: 8,
            max_count: 100,
        }
    );
    assert_eq!(
        pass.multi_draw_indexed_indirect_count(5u32, 64, 6, 8, 100),
        RenderCommand::MultiDrawIndexedIndirectCount {
            indirect_buffer: 5,
            indirect_offset: 64,
            count_buffer: 6,
            count_offset: 8,
            max_count: 100,
        }
    );
    assert_eq!(
        pass.set_push_constants::<u32>(ShaderStage { bits: 3 }, 4, &data),
        RenderCommand::SetPushConstants { stages: ShaderStage { bits: 3 }, offset: 4, data: &data }
    );
    assert_eq!(
        pass.set_scissor_rect::<u32>(1, 2, 3, 4),
        RenderCommand::SetScissorRect { x: 1, y: 2, width: 3, height: 4 }
    );
    assert_eq!(pass.set_stencil_reference::<u32>(255), RenderCommand::SetStencilReference(255));
    assert_eq!(pass.execute_bundles(&bundles), RenderCommand::ExecuteBundles(&bundles));
    assert_eq!(pass.insert_debug_marker::<u32>("here"), RenderCommand::InsertDebugMarker("here"));
    assert_eq!(pass.push_debug_group::<u32>("group"), RenderCommand::PushDebugGroup("group"));
    assert_eq!(pass.pop_debug_group::<u32>(), RenderCommand::PopDebugGroup);
    assert_eq!(pass.check_record(), Ok(()));
    assert_eq!(pass.encoder().unwrap().state(), EncoderState::PassOpen(PassKind::Render));
}

#[test]
fn viewport_and_blend_colour_carry_the_bits_of_their_numbers() {
    let mut encoder = encoder();
    let mut pass = encoder.begin_render_pass();
    let command = pass.set_viewport::<u32>(
        0.0f32.to_bits(),
        1.5f32.to_bits(),
        640.0f32.to_bits(),
        480.0f32.to_bits(),
        0.0f32.to_bits(),
        1.0f32.to_bits(),
    );
    match command {
        RenderCommand::SetViewport { x, y, width, height, min_depth, max_depth } => {
            assert_eq!(f32::from_bits(x), 0.0);
            assert_eq!(f32::from_bits(y), 1.5);
            assert_eq!(f32::from_bits(width), 640.0);
            assert_eq!(f32::from_bits(height), 480.0);
            assert_eq!(f32::from_bits(min_depth), 0.0);
            assert_eq!(f32::from_bits(max_depth), 1.0);
        }
        _ => panic!("a viewport was set"),
    }
    let colour = pass.set_blend_color::<u32>(
        0.25f64.to_bits(),
        0.5f64.to_bits(),
        0.75f64.to_bits(),
        1.0f64.to_bits(),
    );
    assert_eq!(
        colour,
        RenderCommand::SetBlendColor {
            r: 0.25f64.to_bits(),
            g: 0.5f64.to_bits(),
            b: 0.75f64.to_bits(),
            a: 1.0f64.to_bits(),
        }
    );
}

#[test]
fn compute_pass_commands_are_handed_back_as_given() {
    let mut encoder = encoder();
    let mut pass = encoder.begin_compute_pass();
    let offsets = [64u32];
    let data = [7u32, 8];
    assert_eq!(
        pass.set_bind_group(0, "group", &offsets),
        ComputeCommand::SetBindGroup { index: 0, bind_group: "group", offsets: &offsets }
    );
    assert_eq!(pass.set_pipeline("pipeline"), ComputeCommand::SetPipeline("pipeline"));
    assert_eq!(pass.dispatch::<&str>(8, 4, 2), ComputeCommand::Dispatch { x: 8, y: 4, z: 2 });
    assert_eq!(
        pass.dispatch_indirect("arguments", 12),
        ComputeCommand::DispatchIndirect { indirect_buffer: "arguments", indirect_offset: 12 }
    );
    assert_eq!(
        pass.set_push_constants::<&str>(4, &data),
        ComputeCommand::SetPushConstants { offset: 4, data: &data }
    );
    assert_eq!(pass.insert_debug_marker::<&str>("here"), ComputeCommand::InsertDebugMarker("here"));
    assert_eq!(pass.push_debug_group::<&str>("group"), ComputeCommand::PushDebugGroup("group"));
    assert_eq!(pass.pop_debug_group::<&str>(), ComputeCommand::PopDebugGroup);
    assert_eq!(pass.encoder().unwrap().state(), EncoderState::PassOpen(PassKind::Compute));
    assert!(pass.end());
    assert_eq!(encoder.state(), EncoderState::Encoding);
}

#[test]
fn render_bundle_encoder_is_finished_once_into_an_owned_bundle() {
    let mut bundle_encoder = RenderBundleEncoder::new();
    let offsets: [u32; 0] = [];
    let data = [9u32];
    let slice = BufferSlice { offset: 0, size: None };
    assert_eq!(bundle_encoder.check_record(), Ok(()));
    assert_eq!(
        bundle_encoder.set_bind_group(1, 2u8, &offsets),
        RenderCommand::SetBindGroup { index: 1, bind_group: 2, offsets: &offsets }
    );
    assert_eq!(bundle_encoder.set_pipeline(3u8), RenderCommand::SetPipeline(3));
    assert_eq!(
        bundle_encoder.set_index_buffer(4u8, slice),
        RenderCommand::SetIndexBuffer { buffer: 4, offset: 0, size: None }
    );
    assert_eq!(
        bundle_encoder.set_vertex_buffer(0, 4u8, slice),
        RenderCommand::SetVertexBuffer { slot: 0, buffer: 4, offset: 0, size: None }
    );
    assert_eq!(
        bundle_encoder.draw::<u8>(0..6, 0..2),
        RenderCommand::Draw { vertices: 0..6, instances: 0..2 }
    );
    assert_eq!(
        bundle_encoder.draw_indexed::<u8>(0..6, 1, 0..2),
        RenderCommand::DrawIndexed { indices: 0..6, base_vertex: 1, instances: 0..2 }
    );
    assert_eq!(
        bundle_encoder.draw_indirect(5u8, 16),
        RenderCommand::DrawIndirect { indirect_buffer: 5, indirect_offset: 16 }
    );
    assert_eq!(
        bundle_encoder.draw_indexed_indirect(5u8, 32),
        RenderCommand::DrawIndexedIndirect { indirect_buffer: 5, indirect_offset: 32 }
    );
    assert_eq!(
        bundle_encoder.set_push_constants::<u8>(ShaderStage { bits: 1 }, 0, &data),
        RenderCommand::SetPushConstants { stages: ShaderStage { bits: 1 }, offset: 0, data: &data }
    );
    let bundle = bundle_encoder.finish(&RenderBundleDescriptor { label: None }, 77u8);
    assert_eq!(bundle_encoder.check_record(), Err(RecordError::Finished));
    assert_eq!(*bundle.handle(), 77);
    assert!(bundle.is_owned());
    assert_eq!(bundle.release(false), Some(77));
}

#[test]
fn descriptors_default_to_no_label() {
    assert_eq!(CommandEncoderDescriptor::default(), CommandEncoderDescriptor { label: None });
    assert_eq!(RenderBundleDescriptor::default(), RenderBundleDescriptor { label: None });
}
