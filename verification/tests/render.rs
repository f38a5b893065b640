use inox2d_wgpu::cmd::{BlendMode, MaskingMode, RenderCommand, UniformBlock};
use inox2d_wgpu::pipeline::MaskState;
use inox2d_wgpu::render::{check_plannable, plan_render, PassKind, RenderStep};
use inox2d_wgpu::uniforms::{UniformBuffer, UniformUpload};

fn block(b: u8) -> UniformBlock {
    UniformBlock { bytes: [b; 112] }
}

fn draw(tex: usize, off: u32, count: u32, blend: BlendMode, b: u8) -> RenderCommand {
    RenderCommand::Draw {
        texture_index: tex,
        index_offset: off,
        index_count: count,
        blend_mode: blend,
        opacity: 0x3f80_0000,
        uniforms: block(b),
    }
}

fn end_composite(off: u32, b: u8) -> RenderCommand {
    RenderCommand::EndComposite {
        index_offset: off,
        index_count: 6,
        blend_mode: BlendMode::Normal,
        opacity: 0x3f80_0000,
        uniforms: block(b),
    }
}

#[test]
fn empty_command_list_plans_nothing() {
    assert!(check_plannable(&[]));
    assert!(plan_render(&[]).is_empty());
}

#[test]
fn redundant_pipeline_and_texture_binds_are_skipped() {
    let cmds = vec![
        (0, draw(1, 0, 3, BlendMode::Normal, 1)),
        (0, draw(1, 3, 3, BlendMode::Normal, 2)),
        (0, draw(2, 6, 3, BlendMode::Normal, 3)),
        (0, draw(2, 9, 3, BlendMode::Multiply, 4)),
    ];
    assert!(check_plannable(&cmds));
    let plan = plan_render(&cmds);
    let expected = vec![
        RenderStep::BeginPass { kind: PassKind::Main, puppet_id: 0 },
        RenderStep::SetPipeline { blend_mode: BlendMode::Normal, mask: MaskState::NoMask, composite: false },
        RenderStep::SetTextureBindGroup { puppet_id: 0, texture_index: 1 },
        RenderStep::SetUniformBindGroup { offset: 0 },
        RenderStep::DrawIndexed { start: 0, end: 3 },
        RenderStep::SetUniformBindGroup { offset: 256 },
        RenderStep::DrawIndexed { start: 3, end: 6 },
        RenderStep::SetTextureBindGroup { puppet_id: 0, texture_index: 2 },
        RenderStep::SetUniformBindGroup { offset: 512 },
        RenderStep::DrawIndexed { start: 6, end: 9 },
        RenderStep::SetPipeline { blend_mode: BlendMode::Multiply, mask: MaskState::NoMask, composite: false },
        RenderStep::SetUniformBindGroup { offset: 768 },
        RenderStep::DrawIndexed { start: 9, end: 12 },
    ];
    assert_eq!(plan, expected);
}

#[test]
fn masking_sets_stencil_references_and_mask_pipelines() {
    let cmds = vec![
        (0, RenderCommand::SetMaskingMode(MaskingMode::WriteMask(1))),
        (0, draw(0, 0, 3, BlendMode::Normal, 1)),
        (0, RenderCommand::SetMaskingMode(MaskingMode::ReadMask(1))),
        (0, draw(0, 3, 3, BlendMode::Normal, 2)),
        (0, RenderCommand::SetMaskingMode(MaskingMode::NoMask)),
    ];
    let plan = plan_render(&cmds);
    let expected = vec![
        RenderStep::BeginPass { kind: PassKind::Main, puppet_id: 0 },
        RenderStep::SetStencilReference(1),
        RenderStep::SetPipeline { blend_mode: BlendMode::Normal, mask: MaskState::WriteMask, composite: false },
        RenderStep::SetTextureBindGroup { puppet_id: 0, texture_index: 0 },
        RenderStep::SetUniformBindGroup { offset: 0 },
        RenderStep::DrawIndexed { start: 0, end: 3 },
        RenderStep::SetStencilReference(1),
        RenderStep::SetPipeline { blend_mode: BlendMode::Normal, mask: MaskState::ReadMask(1), composite: false },
        RenderStep::SetUniformBindGroup { offset: 256 },
        RenderStep::DrawIndexed { start: 3, end: 6 },
        RenderStep::SetStencilReference(0),
    ];
    assert_eq!(plan, expected);
}

#[test]
fn composites_get_their_own_pass_and_return_to_the_main_pass() {
    let cmds = vec![
        (0, draw(0, 0, 3, BlendMode::Normal, 1)),
        (0, RenderCommand::BeginComposite),
        (0, draw(0, 3, 3, BlendMode::Normal, 2)),
        (0, end_composite(100, 3)),
        (0, draw(0, 6, 3, BlendMode::Normal, 4)),
    ];
    assert!(check_plannable(&cmds));
    let plan = plan_render(&cmds);
    let expected = vec![
        RenderStep::BeginPass { kind: PassKind::Main, puppet_id: 0 },
        RenderStep::SetPipeline { blend_mode: BlendMode::Normal, mask: MaskState::NoMask, composite: false },
        RenderStep::SetTextureBindGroup { puppet_id: 0, texture_index: 0 },
        RenderStep::SetUniformBindGroup { offset: 0 },
        RenderStep::DrawIndexed { start: 0, end: 3 },
        RenderStep::BeginPass { kind: PassKind::Composite, puppet_id: 0 },
        RenderStep::SetPipeline { blend_mode: BlendMode::Normal, mask: MaskState::NoMask, composite: false },
        RenderStep::SetTextureBindGroup { puppet_id: 0, texture_index: 0 },
        RenderStep::SetUniformBindGroup { offset: 256 },
        RenderStep::DrawIndexed { start: 3, end: 6 },
        RenderStep::BeginPass { kind: PassKind::Main, puppet_id: 0 },
        RenderStep::SetPipeline { blend_mode: BlendMode::Normal, mask: MaskState::NoMask, composite: true },
        RenderStep::SetCompositeBindGroup,
        RenderStep::SetUniformBindGroup { offset: 512 },
        RenderStep::DrawIndexed { start: 100, end: 106 },
        RenderStep::SetPipeline { blend_mode: BlendMode::Normal, mask: MaskState::NoMask, composite: false },
        RenderStep::SetTextureBindGroup { puppet_id: 0, texture_index: 0 },
        RenderStep::SetUniformBindGroup { offset: 768 },
        RenderStep::DrawIndexed { start: 6, end: 9 },
    ];
    assert_eq!(plan, expected);
}

#[test]
fn composite_pass_binds_the_buffers_of_the_next_commands_puppet() {
    let cmds = vec![
        (4, RenderCommand::BeginComposite),
        (7, draw(0, 0, 3, BlendMode::Normal, 1)),
        (7, end_composite(3, 2)),
    ];
    let plan = plan_render(&cmds);
    assert_eq!(plan[0], RenderStep::BeginPass { kind: PassKind::Composite, puppet_id: 7 });
    assert_eq!(plan[5], RenderStep::BeginPass { kind: PassKind::Main, puppet_id: 7 });
}

#[test]
fn nested_begin_composite_starts_a_new_composite_pass() {
    let cmds = vec![
        (0, RenderCommand::BeginComposite),
        (1, RenderCommand::BeginComposite),
        (2, draw(0, 0, 3, BlendMode::Normal, 1)),
    ];
    let plan = plan_render(&cmds);
    assert_eq!(plan[0], RenderStep::BeginPass { kind: PassKind::Composite, puppet_id: 1 });
    assert_eq!(plan[1], RenderStep::BeginPass { kind: PassKind::Composite, puppet_id: 2 });
    assert_eq!(plan.len(), 6);
}

#[test]
fn unplannable_command_lists_are_detected() {
    let trailing = vec![(0, draw(0, 0, 3, BlendMode::Normal, 1)), (0, RenderCommand::BeginComposite)];
    assert!(!check_plannable(&trailing));
    let overflowing = vec![(0, draw(0, u32::MAX - 1, 2, BlendMode::Normal, 1))];
    assert!(!check_plannable(&overflowing));
    let edge = vec![(0, draw(0, u32::MAX - 2, 2, BlendMode::Normal, 1))];
    assert!(check_plannable(&edge));
}

#[test]
fn each_draw_binds_the_slot_holding_its_uniforms() {
    let cmds = vec![
        (0, RenderCommand::SetMaskingMode(MaskingMode::WriteMask(1))),
        (0, draw(0, 0, 3, BlendMode::Normal, 10)),
        (0, RenderCommand::BeginComposite),
        (0, draw(1, 3, 3, BlendMode::Screen, 20)),
        (0, end_composite(50, 30)),
    ];
    let mut uniforms = UniformBuffer::new();
    assert_eq!(uniforms.write_uniforms(&cmds), UniformUpload::Upload);
    let staging = uniforms.staging().to_vec();
    let plan = plan_render(&cmds);
    let offsets: Vec<u32> = plan
        .iter()
        .filter_map(|s| match s {
            RenderStep::SetUniformBindGroup { offset } => Some(*offset),
            _ => None,
        })
        .collect();
    assert_eq!(offsets, vec![0, 256, 512]);
    for (k, expected) in [10u8, 20, 30].iter().enumerate() {
        let o = offsets[k] as usize;
        assert!(staging[o..o + 112].iter().all(|b| b == expected));
        assert!(staging[o + 112..o + 256].iter().all(|b| *b == 0));
    }
}

#[test]
fn each_puppet_draws_from_its_own_buffers_and_textures() {
    // Several puppets in one pass: switching puppets rebinds the buffers
    // and the texture, even where the texture index is the same.
    let cmds = vec![
        (0, draw(3, 0, 3, BlendMode::Normal, 1)),
        (1, draw(3, 3, 3, BlendMode::Normal, 2)),
        (0, draw(3, 6, 3, BlendMode::Normal, 3)),
        (0, draw(3, 9, 3, BlendMode::Normal, 4)),
    ];
    assert!(check_plannable(&cmds));
    let plan = plan_render(&cmds);
    let expected = vec![
        RenderStep::BeginPass { kind: PassKind::Main, puppet_id: 0 },
        RenderStep::SetPipeline { blend_mode: BlendMode::Normal, mask: MaskState::NoMask, composite: false },
        RenderStep::SetTextureBindGroup { puppet_id: 0, texture_index: 3 },
        RenderStep::SetUniformBindGroup { offset: 0 },
        RenderStep::DrawIndexed { start: 0, end: 3 },
        RenderStep::BindBuffers { puppet_id: 1 },
        RenderStep::SetTextureBindGroup { puppet_id: 1, texture_index: 3 },
        RenderStep::SetUniformBindGroup { offset: 256 },
        RenderStep::DrawIndexed { start: 3, end: 6 },
        RenderStep::BindBuffers { puppet_id: 0 },
        RenderStep::SetTextureBindGroup { puppet_id: 0, texture_index: 3 },
        RenderStep::SetUniformBindGroup { offset: 512 },
        RenderStep::DrawIndexed { start: 6, end: 9 },
        RenderStep::SetUniformBindGroup { offset: 768 },
        RenderStep::DrawIndexed { start: 9, end: 12 },
    ];
    assert_eq!(plan, expected);
}

#[test]
fn composite_of_one_puppet_returns_to_the_main_pass_with_its_buffers() {
    // Puppet 1 composites after puppet 0 drew: the composite pass binds
    // puppet 1's buffers, and so does the main pass it returns to.
    let cmds = vec![
        (0, draw(0, 0, 3, BlendMode::Normal, 1)),
        (1, RenderCommand::BeginComposite),
        (1, draw(2, 3, 3, BlendMode::Normal, 2)),
        (1, end_composite(100, 3)),
        (0, draw(0, 6, 3, BlendMode::Normal, 4)),
    ];
    let plan = plan_render(&cmds);
    let expected = vec![
        RenderStep::BeginPass { kind: PassKind::Main, puppet_id: 0 },
        RenderStep::SetPipeline { blend_mode: BlendMode::Normal, mask: MaskState::NoMask, composite: false },
        RenderStep::SetTextureBindGroup { puppet_id: 0, texture_index: 0 },
        RenderStep::SetUniformBindGroup { offset: 0 },
        RenderStep::DrawIndexed { start: 0, end: 3 },
        RenderStep::BeginPass { kind: PassKind::Composite, puppet_id: 1 },
        RenderStep::SetPipeline { blend_mode: BlendMode::Normal, mask: MaskState::NoMask, composite: false },
        RenderStep::SetTextureBindGroup { puppet_id: 1, texture_index: 2 },
        RenderStep::SetUniformBindGroup { offset: 256 },
        RenderStep::DrawIndexed { start: 3, end: 6 },
        RenderStep::BeginPass { kind: PassKind::Main, puppet_id: 1 },
        RenderStep::SetPipeline { blend_mode: BlendMode::Normal, mask: MaskState::NoMask, composite: true },
        RenderStep::SetCompositeBindGroup,
        RenderStep::SetUniformBindGroup { offset: 512 },
        RenderStep::DrawIndexed { start: 100, end: 106 },
        RenderStep::BindBuffers { puppet_id: 0 },
        RenderStep::SetPipeline { blend_mode: BlendMode::Normal, mask: MaskState::NoMask, composite: false },
        RenderStep::SetTextureBindGroup { puppet_id: 0, texture_index: 0 },
        RenderStep::SetUniformBindGroup { offset: 768 },
        RenderStep::DrawIndexed { start: 6, end: 9 },
    ];
    assert_eq!(plan, expected);
}
