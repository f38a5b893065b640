use inox2d_wgpu::cache::{CacheSlot, PipelineCache, PipelineKey};
use inox2d_wgpu::cmd::{BlendMode, MaskingMode};
use inox2d_wgpu::pipeline::{
    blend_state_for, get_blend_id, mask_config_for, mask_state_of, stencil_reference, BlendFactor, BlendOperation,
    CompareFunction, DepthStencilFormat, MaskState, StencilOperation,
};

const ALL: [BlendMode; 7] = [
    BlendMode::Normal,
    BlendMode::Multiply,
    BlendMode::ColorDodge,
    BlendMode::LinearDodge,
    BlendMode::Screen,
    BlendMode::ClipToLower,
    BlendMode::SliceFromLower,
];

#[test]
fn blend_ids_are_distinct() {
    let ids: Vec<u8> = ALL.iter().map(|m| get_blend_id(*m)).collect();
    assert_eq!(ids, vec![0, 1, 2, 3, 4, 5, 6]);
}

#[test]
fn normal_is_premultiplied_over() {
    let s = blend_state_for(BlendMode::Normal);
    assert_eq!(s.color.src_factor, BlendFactor::One);
    assert_eq!(s.color.dst_factor, BlendFactor::OneMinusSrcAlpha);
    assert_eq!(s.color.operation, BlendOperation::Add);
    assert_eq!(s.alpha, s.color);
}

#[test]
fn blend_equations() {
    let c = |m| blend_state_for(m).color;
    assert_eq!((c(BlendMode::Multiply).src_factor, c(BlendMode::Multiply).dst_factor), (BlendFactor::Dst, BlendFactor::OneMinusSrcAlpha));
    assert_eq!((c(BlendMode::ColorDodge).src_factor, c(BlendMode::ColorDodge).dst_factor), (BlendFactor::Dst, BlendFactor::One));
    assert_eq!((c(BlendMode::LinearDodge).src_factor, c(BlendMode::LinearDodge).dst_factor), (BlendFactor::One, BlendFactor::One));
    assert_eq!((c(BlendMode::Screen).src_factor, c(BlendMode::Screen).dst_factor), (BlendFactor::One, BlendFactor::OneMinusSrc));
    assert_eq!((c(BlendMode::ClipToLower).src_factor, c(BlendMode::ClipToLower).dst_factor), (BlendFactor::DstAlpha, BlendFactor::OneMinusSrcAlpha));
    let s = c(BlendMode::SliceFromLower);
    assert_eq!((s.src_factor, s.dst_factor, s.operation), (BlendFactor::OneMinusDstAlpha, BlendFactor::OneMinusSrcAlpha, BlendOperation::Subtract));
    for m in ALL {
        assert_eq!(blend_state_for(m).alpha, blend_state_for(m).color);
    }
}

#[test]
fn mask_configurations() {
    let none = mask_config_for(MaskState::NoMask);
    assert_eq!(none.front.compare, CompareFunction::Always);
    assert_eq!(none.front.pass_op, StencilOperation::Keep);
    assert_eq!((none.read_mask, none.write_mask, none.writes_color), (0, 0, true));
    let write = mask_config_for(MaskState::WriteMask);
    assert_eq!(write.front.pass_op, StencilOperation::Replace);
    assert_eq!((write.read_mask, write.write_mask, write.writes_color), (0xFF, 0xFF, false));
    let read = mask_config_for(MaskState::ReadMask(3));
    assert_eq!(read.front.compare, CompareFunction::Equal);
    assert_eq!(read.front.pass_op, StencilOperation::Keep);
    assert_eq!((read.read_mask, read.write_mask, read.writes_color), (0xFF, 0xFF, true));
    for c in [none, write, read] {
        assert_eq!(c.front, c.back);
        assert_eq!(c.format, DepthStencilFormat::Depth24PlusStencil8);
        assert!(!c.depth_write_enabled);
        assert_eq!(c.depth_compare, CompareFunction::Always);
        assert_eq!(c.front.fail_op, StencilOperation::Keep);
        assert_eq!(c.front.depth_fail_op, StencilOperation::Keep);
    }
}

#[test]
fn masking_modes_select_pipelines_and_references() {
    assert_eq!(mask_state_of(MaskingMode::NoMask), MaskState::NoMask);
    assert_eq!(mask_state_of(MaskingMode::WriteMask(4)), MaskState::WriteMask);
    assert_eq!(mask_state_of(MaskingMode::ReadMask(4)), MaskState::ReadMask(4));
    assert_eq!(stencil_reference(MaskingMode::NoMask), 0);
    assert_eq!(stencil_reference(MaskingMode::WriteMask(200)), 200);
    assert_eq!(stencil_reference(MaskingMode::ReadMask(255)), 255);
}

fn key(format_id: usize, blend_id: u8, mask: MaskState, is_composite: bool) -> PipelineKey {
    PipelineKey { format_id, blend_id, mask, is_composite }
}

#[test]
fn pipeline_cache_creates_each_pipeline_once() {
    let mut cache = PipelineCache::new();
    let a = key(0, 0, MaskState::NoMask, false);
    let b = key(0, 0, MaskState::NoMask, true);
    let c = key(0, 0, MaskState::ReadMask(3), false);
    assert_eq!(cache.find(a), None);
    assert_eq!(cache.slot_for(a), CacheSlot { index: 0, created: true });
    assert_eq!(cache.slot_for(b), CacheSlot { index: 1, created: true });
    assert_eq!(cache.slot_for(a), CacheSlot { index: 0, created: false });
    assert_eq!(cache.slot_for(c), CacheSlot { index: 2, created: true });
    assert_eq!(cache.slot_for(b), CacheSlot { index: 1, created: false });
    assert_eq!(cache.len(), 3);
    assert_eq!(cache.find(c), Some(2));
    assert_eq!(cache.find(key(1, 0, MaskState::NoMask, false)), None);
}
