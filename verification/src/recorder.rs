use crate::swap_config::Extent2d;
use vstd::prelude::*;

verus! {

/// One step of the per-image command sequence, in the fixed order the
/// recorder emits them.
#[derive(Clone, Copy, PartialEq, Eq, Structural, Debug)]
pub enum RenderCommand {
    BeginRenderPass { width: u32, height: u32 },
    BindPipeline,
    SetViewport { width: u32, height: u32 },
    SetScissor { width: u32, height: u32 },
    BindVertexBuffer,
    BindIndexBuffer,
    BindDescriptorSet { image_index: u32 },
    DrawIndexed { index_count: u32 },
    EndRenderPass,
}

/// A recorded command sequence: only valid for the chain generation it
/// was recorded against, and discarded and re-recorded after any rebuild.
pub struct CommandSequence {
    pub generation: u64,
    pub image_index: u32,
    pub commands: Vec<RenderCommand>,
}

/// The fixed recording order: begin the render pass over the full extent,
/// bind the pipeline, set the dynamic viewport and scissor, bind the
/// vertex and index buffers and this image's descriptor set, issue the
/// indexed draw, and end the pass.
pub open spec fn spec_command_list(
    image_index: u32,
    extent: Extent2d,
    index_count: u32,
) -> Seq<RenderCommand> {
    seq![
        RenderCommand::BeginRenderPass { width: extent.width, height: extent.height },
        RenderCommand::BindPipeline,
        RenderCommand::SetViewport { width: extent.width, height: extent.height },
        RenderCommand::SetScissor { width: extent.width, height: extent.height },
        RenderCommand::BindVertexBuffer,
        RenderCommand::BindIndexBuffer,
        RenderCommand::BindDescriptorSet { image_index },
        RenderCommand::DrawIndexed { index_count },
        RenderCommand::EndRenderPass,
    ]
}

/// Records the command sequence for one chain image. This is a pure
/// function of its inputs: recording again with the same inputs yields
/// the same sequence, which is what allows the throw-away-and-re-record
/// recovery after a rebuild.
pub fn record_command_sequence(
    generation: u64,
    image_index: u32,
    extent: Extent2d,
    index_count: u32,
) -> (r: CommandSequence)
    ensures
        r.generation == generation,
        r.image_index == image_index,
        r.commands@ == spec_command_list(image_index, extent, index_count),
{
    let mut commands: Vec<RenderCommand> = Vec::new();
    commands.push(RenderCommand::BeginRenderPass { width: extent.width, height: extent.height });
    commands.push(RenderCommand::BindPipeline);
    commands.push(RenderCommand::SetViewport { width: extent.width, height: extent.height });
    commands.push(RenderCommand::SetScissor { width: extent.width, height: extent.height });
    commands.push(RenderCommand::BindVertexBuffer);
    commands.push(RenderCommand::BindIndexBuffer);
    commands.push(RenderCommand::BindDescriptorSet { image_index });
    commands.push(RenderCommand::DrawIndexed { index_count });
    commands.push(RenderCommand::EndRenderPass);
    proof {
        assert(commands@ =~= spec_command_list(image_index, extent, index_count));
    }
    CommandSequence { generation, image_index, commands }
}

} // verus!
