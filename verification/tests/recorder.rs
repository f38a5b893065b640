use inox2d_wgpu::cmd::{BlendMode, MaskingMode, RenderCommand, UniformBlock};
use inox2d_wgpu::buffers::BufferManager;
use inox2d_wgpu::recorder::RenderRecorder;

/// Buffers of a three-vertex puppet with 40 indices: the composite quad's
/// indices start at 40.
fn buffers_with_40_indices() -> BufferManager {
    let mut m = BufferManager::new();
    let verts = [[0u32, 0u32]; 3];
    let indices = [0u16; 40];
    m.update(&verts, &verts, &verts, &indices);
    assert_eq!((m.composite_index_offset(), m.composite_index_count()), (40, 6));
    m
}

fn block(b: u8) -> UniformBlock {
    UniformBlock { bytes: [b; 112] }
}

fn recorder_for(puppet: usize) -> RenderRecorder {
    let mut r = RenderRecorder::new();
    r.begin_puppet(puppet);
    r
}

fn mask_modes(r: &RenderRecorder) -> Vec<MaskingMode> {
    r.commands()
        .iter()
        .filter_map(|(_, c)| match c {
            RenderCommand::SetMaskingMode(m) => Some(*m),
            _ => None,
        })
        .collect()
}

#[test]
fn new_recorder_starts_unmasked() {
    let r = RenderRecorder::new();
    assert!(r.commands().is_empty());
    assert_eq!(r.masking_stack(), &[MaskingMode::NoMask]);
    assert_eq!(r.current_masking_mode(), MaskingMode::NoMask);
    assert_eq!(r.mask_counter(), 0);
    assert!(r.mask_thresholds().is_empty());
    assert_eq!(r.current_puppet_id(), None);
}

#[test]
fn begin_masks_writes_a_fresh_stencil_value() {
    let mut r = recorder_for(3);
    r.on_begin_masks(0x3f00_0000);
    assert_eq!(r.mask_counter(), 1);
    assert_eq!(r.current_masking_mode(), MaskingMode::WriteMask(1));
    assert_eq!(r.masking_stack(), &[MaskingMode::NoMask, MaskingMode::WriteMask(1)]);
    assert_eq!(r.mask_thresholds(), &[0x3f00_0000]);
    assert_eq!(r.commands().len(), 1);
    assert_eq!(r.commands()[0].0, 3);
    assert_eq!(mask_modes(&r), vec![MaskingMode::WriteMask(1)]);
}

#[test]
fn mask_group_restores_the_previous_mode() {
    let mut r = recorder_for(0);
    r.on_begin_masks(7);
    r.on_begin_masked_content();
    assert_eq!(r.current_masking_mode(), MaskingMode::ReadMask(1));
    assert_eq!(r.masking_stack(), &[MaskingMode::NoMask, MaskingMode::ReadMask(1)]);
    assert!(r.mask_thresholds().is_empty());
    r.on_end_mask();
    assert_eq!(r.current_masking_mode(), MaskingMode::NoMask);
    assert_eq!(r.masking_stack(), &[MaskingMode::NoMask]);
    assert_eq!(
        mask_modes(&r),
        vec![MaskingMode::WriteMask(1), MaskingMode::ReadMask(1), MaskingMode::NoMask]
    );
}

#[test]
fn nested_masks_get_distinct_values() {
    let mut r = recorder_for(0);
    r.on_begin_masks(1);
    r.on_begin_masked_content();
    r.on_begin_masks(2);
    assert_eq!(r.current_masking_mode(), MaskingMode::WriteMask(2));
    r.on_begin_masked_content();
    assert_eq!(r.current_masking_mode(), MaskingMode::ReadMask(2));
    r.on_end_mask();
    assert_eq!(r.current_masking_mode(), MaskingMode::ReadMask(1));
    r.on_end_mask();
    assert_eq!(r.current_masking_mode(), MaskingMode::NoMask);
}

#[test]
fn mask_counter_skips_zero_after_255_groups() {
    let mut r = recorder_for(0);
    for k in 1..=255u32 {
        r.on_begin_masks(0);
        assert_eq!(r.current_masking_mode(), MaskingMode::WriteMask(k as u8));
        r.on_begin_masked_content();
        r.on_end_mask();
    }
    r.on_begin_masks(0);
    assert_eq!(r.current_masking_mode(), MaskingMode::WriteMask(1));
}

#[test]
fn end_mask_on_the_base_mode_records_nothing() {
    let mut r = RenderRecorder::new();
    // No puppet is needed: the stack only holds the base mode.
    r.on_end_mask();
    assert!(r.masking_stack().is_empty());
    assert!(r.commands().is_empty());
    assert_eq!(r.current_masking_mode(), MaskingMode::NoMask);
}

#[test]
fn composite_group_keeps_the_mode_and_records_its_draw() {
    let mut r = recorder_for(2);
    r.on_begin_masks(0);
    r.on_begin_masked_content();
    r.begin_composite_content();
    assert_eq!(r.masking_stack().len(), 3);
    r.finish_composite_content(&buffers_with_40_indices(), BlendMode::Screen, 0x3f80_0000, block(9));
    assert_eq!(r.current_masking_mode(), MaskingMode::ReadMask(1));
    assert_eq!(r.masking_stack(), &[MaskingMode::NoMask, MaskingMode::ReadMask(1)]);
    let cmds = r.commands();
    assert!(matches!(cmds[2].1, RenderCommand::BeginComposite));
    assert!(matches!(cmds[3].1, RenderCommand::SetMaskingMode(MaskingMode::ReadMask(1))));
    match cmds[4] {
        (2, RenderCommand::EndComposite { index_offset: 40, index_count: 6, blend_mode: BlendMode::Screen, opacity: 0x3f80_0000, uniforms }) => {
            assert_eq!(uniforms.bytes, [9u8; 112]);
        }
        _ => panic!("expected the composite draw"),
    }
}

#[test]
fn empty_meshes_record_nothing() {
    let mut r = RenderRecorder::new();
    r.draw_textured_mesh_content(0, 10, 0, BlendMode::Normal, 0, block(0));
    assert!(r.commands().is_empty());
    r.begin_puppet(5);
    r.draw_textured_mesh_content(4, 10, 12, BlendMode::Multiply, 0x3f80_0000, block(1));
    match r.commands()[0] {
        (5, RenderCommand::Draw { texture_index: 4, index_offset: 10, index_count: 12, blend_mode: BlendMode::Multiply, .. }) => {}
        _ => panic!("expected a draw"),
    }
}

#[test]
fn alpha_threshold_applies_to_masks_only() {
    let mut r = recorder_for(0);
    assert_eq!(r.alpha_threshold(true), 0);
    r.on_begin_masks(0x3e80_0000);
    r.on_begin_masks(0x3f40_0000);
    assert_eq!(r.alpha_threshold(true), 0x3f40_0000);
    assert_eq!(r.alpha_threshold(false), 0);
    r.on_begin_masked_content();
    assert_eq!(r.alpha_threshold(true), 0x3e80_0000);
}

#[test]
fn prepare_resets_the_frame_but_keeps_the_puppet() {
    let mut r = recorder_for(8);
    r.on_begin_masks(1);
    r.begin_composite_content();
    r.prepare();
    assert!(r.commands().is_empty());
    assert_eq!(r.masking_stack(), &[MaskingMode::NoMask]);
    assert_eq!(r.current_masking_mode(), MaskingMode::NoMask);
    assert_eq!(r.mask_counter(), 0);
    assert!(r.mask_thresholds().is_empty());
    assert_eq!(r.current_puppet_id(), Some(8));
}

#[test]
fn mask_group_with_draws_and_a_nested_group_restores_the_mode() {
    let mut r = recorder_for(1);
    r.on_begin_masks(0x3f00_0000);
    r.draw_textured_mesh_content(0, 0, 3, BlendMode::Normal, 0x3f80_0000, block(1));
    r.on_begin_masked_content();
    r.draw_textured_mesh_content(1, 3, 3, BlendMode::Normal, 0x3f80_0000, block(2));
    r.on_begin_masks(0x3e80_0000);
    r.draw_textured_mesh_content(2, 6, 3, BlendMode::Normal, 0x3f80_0000, block(3));
    r.on_begin_masked_content();
    r.draw_textured_mesh_content(3, 9, 3, BlendMode::Normal, 0x3f80_0000, block(4));
    r.on_end_mask();
    assert_eq!(r.current_masking_mode(), MaskingMode::ReadMask(1));
    r.on_end_mask();
    assert_eq!(r.current_masking_mode(), MaskingMode::NoMask);
    assert_eq!(r.masking_stack(), &[MaskingMode::NoMask]);
    assert!(r.mask_thresholds().is_empty());
    let last = r.commands().last().copied();
    assert!(matches!(last, Some((1, RenderCommand::SetMaskingMode(MaskingMode::NoMask)))));
}

#[test]
fn composite_group_with_a_mask_group_inside_restores_the_mode() {
    let mut r = recorder_for(5);
    r.on_begin_masks(0);
    r.on_begin_masked_content();
    r.begin_composite_content();
    r.draw_textured_mesh_content(0, 0, 3, BlendMode::Normal, 0x3f80_0000, block(1));
    r.on_begin_masks(0);
    r.on_begin_masked_content();
    r.draw_textured_mesh_content(1, 3, 3, BlendMode::Normal, 0x3f80_0000, block(2));
    r.on_end_mask();
    r.finish_composite_content(&buffers_with_40_indices(), BlendMode::Normal, 0x3f80_0000, block(3));
    assert_eq!(r.current_masking_mode(), MaskingMode::ReadMask(1));
    assert_eq!(r.masking_stack(), &[MaskingMode::NoMask, MaskingMode::ReadMask(1)]);
    let cmds = r.commands();
    let n = cmds.len();
    assert!(matches!(cmds[n - 2], (5, RenderCommand::SetMaskingMode(MaskingMode::ReadMask(1)))));
    assert!(matches!(cmds[n - 1], (5, RenderCommand::EndComposite { index_offset: 40, .. })));
}
