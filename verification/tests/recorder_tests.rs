use render_core::recorder::{record_command_sequence, RenderCommand};
use render_core::swap_config::Extent2d;

#[test]
fn recording_order_is_fixed() {
    let seq = record_command_sequence(3, 1, Extent2d { width: 640, height: 480 }, 12);
    assert_eq!(seq.generation, 3);
    assert_eq!(seq.image_index, 1);
    let expected = vec![
        RenderCommand::BeginRenderPass { width: 640, height: 480 },
        RenderCommand::BindPipeline,
        RenderCommand::SetViewport { width: 640, height: 480 },
        RenderCommand::SetScissor { width: 640, height: 480 },
        RenderCommand::BindVertexBuffer,
        RenderCommand::BindIndexBuffer,
        RenderCommand::BindDescriptorSet { image_index: 1 },
        RenderCommand::DrawIndexed { index_count: 12 },
        RenderCommand::EndRenderPass,
    ];
    assert_eq!(seq.commands, expected);
}

#[test]
fn recording_is_idempotent() {
    // Re-recording with the same inputs yields the same sequence.
    let a = record_command_sequence(5, 2, Extent2d { width: 800, height: 600 }, 6);
    let b = record_command_sequence(5, 2, Extent2d { width: 800, height: 600 }, 6);
    assert_eq!(a.commands, b.commands);
    assert_eq!(a.generation, b.generation);
    assert_eq!(a.image_index, b.image_index);
}
