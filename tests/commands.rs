use haltut::frame::Extent;
use haltut::record::record_frame;
use haltut::record::Command;
use haltut::record::FrameRecipe;
use haltut::record::PushConstants;
use haltut::record::PUSH_CONSTANT_WORDS;

fn bits(v: [f32; 4]) -> [u32; 4] {
    [v[0].to_bits(), v[1].to_bits(), v[2].to_bits(), v[3].to_bits()]
}

fn bits3(v: [f32; 3]) -> [u32; 3] {
    [v[0].to_bits(), v[1].to_bits(), v[2].to_bits()]
}

#[test]
fn push_constants_pack_tint_then_position() {
    let p = PushConstants { tint: bits([1.0, 0.0, 0.5, 1.0]), position: bits3([-1.0, 2.0, 0.0]) };
    let words = p.to_words();
    assert_eq!(words.len(), PUSH_CONSTANT_WORDS as usize);
    assert_eq!(words, vec![
        1.0f32.to_bits(), 0.0f32.to_bits(), 0.5f32.to_bits(), 1.0f32.to_bits(),
        (-1.0f32).to_bits(), 2.0f32.to_bits(), 0.0f32.to_bits(),
    ]);
}

#[test]
fn plain_triangle_frame() {
    let recipe = FrameRecipe { vertex_count: 3, vertex_buffer: false, descriptor_set: false, instances: vec![] };
    let cmds = record_frame(&recipe, Extent { width: 640, height: 480 }, 2);
    assert_eq!(cmds, vec![
        Command::SetViewport { width: 640, height: 480 },
        Command::SetScissor { width: 640, height: 480 },
        Command::BindPipeline,
        Command::BeginRenderPass { framebuffer: 2 },
        Command::Draw { vertex_count: 3, push: None },
        Command::EndRenderPass,
    ]);
}

#[test]
fn instanced_frame_binds_resources_and_draws_each_instance() {
    let a = PushConstants { tint: [1, 2, 3, 4], position: [5, 6, 7] };
    let b = PushConstants { tint: [8, 9, 10, 11], position: [12, 13, 14] };
    let recipe = FrameRecipe { vertex_count: 6, vertex_buffer: true, descriptor_set: true, instances: vec![a, b] };
    let cmds = record_frame(&recipe, Extent { width: 800, height: 600 }, 0);
    assert_eq!(cmds, vec![
        Command::SetViewport { width: 800, height: 600 },
        Command::SetScissor { width: 800, height: 600 },
        Command::BindPipeline,
        Command::BindVertexBuffer { binding: 0 },
        Command::BindDescriptorSet { set: 0 },
        Command::BeginRenderPass { framebuffer: 0 },
        Command::Draw { vertex_count: 6, push: Some(a) },
        Command::Draw { vertex_count: 6, push: Some(b) },
        Command::EndRenderPass,
    ]);
}

#[test]
fn vertex_buffer_without_descriptor_set() {
    let recipe = FrameRecipe { vertex_count: 6, vertex_buffer: true, descriptor_set: false, instances: vec![] };
    let cmds = record_frame(&recipe, Extent { width: 1, height: 1 }, 1);
    assert_eq!(cmds[3], Command::BindVertexBuffer { binding: 0 });
    assert_eq!(cmds[4], Command::BeginRenderPass { framebuffer: 1 });
    assert_eq!(cmds.len(), 7);
}
