//! The command list of one frame, and the packing of push constants.

use vstd::prelude::*;
use crate::frame::Extent;

verus! {

/// Number of 32-bit words in one set of push constants.
pub const PUSH_CONSTANT_WORDS: u32 = 7;

/// Per-draw data handed to the vertex shader: a tint colour and an offset,
/// each component as the bit pattern of a 32-bit float.
#[derive(Clone, Copy, Debug, PartialEq, Eq)]
pub struct PushConstants {
    pub tint: [u32; 4],
    pub position: [u32; 3],
}

impl PushConstants {
    /// The words handed to the shader: the tint, then the position.
    pub open spec fn words(self) -> Seq<u32> {
        self.tint@ + self.position@
    }

    /// Packs the fields into push-constant words, tint first.
    pub fn to_words(&self) -> (r: Vec<u32>)
        ensures
            r@ == self.words(),
            r@.len() == PUSH_CONSTANT_WORDS,
    {
        let mut r: Vec<u32> = Vec::new();
        let mut i: usize = 0;
        while i < 4
            invariant
                i <= 4,
                r@ == self.tint@.subrange(0, i as int),
            decreases 4 - i,
        {
            r.push(self.tint[i]);
            assert(self.tint@.subrange(0, i + 1) =~= self.tint@.subrange(0, i as int).push(
                self.tint@[i as int],
            ));
            i = i + 1;
        }
        let mut j: usize = 0;
        while j < 3
            invariant
                j <= 3,
                r@ == self.tint@ + self.position@.subrange(0, j as int),
            decreases 3 - j,
        {
            r.push(self.position[j]);
            assert(self.position@.subrange(0, j + 1) =~= self.position@.subrange(
                0,
                j as int,
            ).push(self.position@[j as int]));
            j = j + 1;
        }
        assert(self.tint@.subrange(0, 4) =~= self.tint@);
        assert(self.position@.subrange(0, 3) =~= self.position@);
        r
    }
}

/// One command of a frame's command buffer.
#[derive(Clone, Copy, Debug, PartialEq, Eq)]
pub enum Command {
    SetViewport { width: u32, height: u32 },
    SetScissor { width: u32, height: u32 },
    BindPipeline,
    BindVertexBuffer { binding: u32 },
    BindDescriptorSet { set: u32 },
    /// Begins the render pass on the framebuffer of this image, clearing it.
    BeginRenderPass { framebuffer: u32 },
    /// Draws the vertex range once, after pushing `push` where given.
    Draw { vertex_count: u32, push: Option<PushConstants> },
    EndRenderPass,
}

/// What a frame draws.
pub struct FrameRecipe {
    pub vertex_count: u32,
    /// A vertex buffer is bound at binding 0.
    pub vertex_buffer: bool,
    /// A descriptor set is bound at set 0.
    pub descriptor_set: bool,
    /// One draw per entry, with its push constants; one plain draw where empty.
    pub instances: Vec<PushConstants>,
}

/// The draws of a frame.
pub open spec fn draw_commands(vertex_count: u32, instances: Seq<PushConstants>) -> Seq<Command> {
    if instances.len() == 0 {
        seq![Command::Draw { vertex_count, push: None }]
    } else {
        instances.map_values(|p: PushConstants| Command::Draw { vertex_count, push: Some(p) })
    }
}

/// The commands of one frame, in the order they are recorded.
pub open spec fn frame_commands(recipe: FrameRecipe, extent: Extent, image: u32) -> Seq<Command> {
    seq![
        Command::SetViewport { width: extent.width, height: extent.height },
        Command::SetScissor { width: extent.width, height: extent.height },
        Command::BindPipeline,
    ] + (if recipe.vertex_buffer {
        seq![Command::BindVertexBuffer { binding: 0 }]
    } else {
        Seq::empty()
    }) + (if recipe.descriptor_set {
        seq![Command::BindDescriptorSet { set: 0 }]
    } else {
        Seq::empty()
    }) + seq![Command::BeginRenderPass { framebuffer: image }] + draw_commands(
        recipe.vertex_count,
        recipe.instances@,
    ) + seq![Command::EndRenderPass]
}

/// Lists the commands of one frame for the image `image`: viewport and
/// scissor over the whole extent, the pipeline, the vertex buffer and
/// descriptor set where the recipe has them, then the render pass with its
/// draws.
pub fn record_frame(recipe: &FrameRecipe, extent: Extent, image: u32) -> (r: Vec<Command>)
    ensures
        r@ == frame_commands(*recipe, extent, image),
{
    let mut cmds: Vec<Command> = Vec::new();
    cmds.push(Command::SetViewport { width: extent.width, height: extent.height });
    cmds.push(Command::SetScissor { width: extent.width, height: extent.height });
    cmds.push(Command::BindPipeline);
    if recipe.vertex_buffer {
        cmds.push(Command::BindVertexBuffer { binding: 0 });
    }
    if recipe.descriptor_set {
        cmds.push(Command::BindDescriptorSet { set: 0 });
    }
    cmds.push(Command::BeginRenderPass { framebuffer: image });
    let ghost head = cmds@;
    let n = recipe.instances.len();
    if n == 0 {
        cmds.push(Command::Draw { vertex_count: recipe.vertex_count, push: None });
    } else {
        let mut i: usize = 0;
        while i < n
            invariant
                n == recipe.instances@.len(),
                i <= n,
                cmds@ == head + recipe.instances@.subrange(0, i as int).map_values(
                    |p: PushConstants| Command::Draw { vertex_count: recipe.vertex_count, push: Some(p) },
                ),
            decreases n - i,
        {
            let p = recipe.instances[i];
            cmds.push(Command::Draw { vertex_count: recipe.vertex_count, push: Some(p) });
            assert(recipe.instances@.subrange(0, i + 1) =~= recipe.instances@.subrange(
                0,
                i as int,
            ).push(p));
            i = i + 1;
        }
        assert(recipe.instances@.subrange(0, n as int) =~= recipe.instances@);
    }
    cmds.push(Command::EndRenderPass);
    assert(cmds@ =~= frame_commands(*recipe, extent, image));
    cmds
}

} // verus!
