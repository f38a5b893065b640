//! Pipeline configuration: how blend modes and masking states map
//! onto blending and depth-stencil settings.

use vstd::prelude::*;
use crate::cmd::{BlendMode, MaskingMode};

verus! {

/// Masking state of a pipeline.
#[derive(Debug, Clone, Copy, PartialEq, Eq, Hash, Structural)]
pub enum MaskState {
    NoMask,
    /// Drawing into the stencil buffer.
    WriteMask,
    /// Drawing content, comparing against the stencil reference.
    ReadMask(u8),
}

/// Stable numeric id of a blend mode, used in pipeline cache keys.
pub open spec fn spec_blend_id(mode: BlendMode) -> u8 {
    match mode {
        BlendMode::Normal => 0,
        BlendMode::Multiply => 1,
        BlendMode::ColorDodge => 2,
        BlendMode::LinearDodge => 3,
        BlendMode::Screen => 4,
        BlendMode::ClipToLower => 5,
        BlendMode::SliceFromLower => 6,
    }
}

/// Maps each blend mode to a unique id for caching.
pub fn get_blend_id(mode: BlendMode) -> (id: u8)
    ensures
        id == spec_blend_id(mode),
{
    match mode {
        BlendMode::Normal => 0,
        BlendMode::Multiply => 1,
        BlendMode::ColorDodge => 2,
        BlendMode::LinearDodge => 3,
        BlendMode::Screen => 4,
        BlendMode::ClipToLower => 5,
        BlendMode::SliceFromLower => 6,
    }
}

/// The pipeline masking state that a recorded masking mode selects.
pub open spec fn spec_mask_state_of(mode: MaskingMode) -> MaskState {
    match mode {
        MaskingMode::NoMask => MaskState::NoMask,
        MaskingMode::WriteMask(_) => MaskState::WriteMask,
        MaskingMode::ReadMask(v) => MaskState::ReadMask(v),
    }
}

/// Selects the pipeline masking state for a recorded masking mode.
pub fn mask_state_of(mode: MaskingMode) -> (state: MaskState)
    ensures
        state == spec_mask_state_of(mode),
{
    match mode {
        MaskingMode::NoMask => MaskState::NoMask,
        MaskingMode::WriteMask(_) => MaskState::WriteMask,
        MaskingMode::ReadMask(v) => MaskState::ReadMask(v),
    }
}

/// The stencil reference value that a masking mode sets.
pub open spec fn spec_stencil_reference(mode: MaskingMode) -> u32 {
    match mode {
        MaskingMode::WriteMask(v) => v as u32,
        MaskingMode::ReadMask(v) => v as u32,
        MaskingMode::NoMask => 0,
    }
}

/// Computes the stencil reference value for a masking mode.
pub fn stencil_reference(mode: MaskingMode) -> (r: u32)
    ensures
        r == spec_stencil_reference(mode),
{
    match mode {
        MaskingMode::WriteMask(v) => v as u32,
        MaskingMode::ReadMask(v) => v as u32,
        MaskingMode::NoMask => 0,
    }
}

/// Blend factors used by the pipelines.
#[derive(Debug, Clone, Copy, PartialEq, Eq, Structural)]
pub enum BlendFactor {
    One,
    Dst,
    DstAlpha,
    OneMinusSrc,
    OneMinusSrcAlpha,
    OneMinusDstAlpha,
}

/// Blend operations used by the pipelines.
#[derive(Debug, Clone, Copy, PartialEq, Eq, Structural)]
pub enum BlendOperation {
    Add,
    Subtract,
}

/// How one channel group (colour or alpha) is blended.
#[derive(Debug, Clone, Copy, PartialEq, Eq, Structural)]
pub struct BlendComponent {
    pub src_factor: BlendFactor,
    pub dst_factor: BlendFactor,
    pub operation: BlendOperation,
}

/// Blending of colour and alpha.
#[derive(Debug, Clone, Copy, PartialEq, Eq, Structural)]
pub struct BlendState {
    pub color: BlendComponent,
    pub alpha: BlendComponent,
}

pub open spec fn component(src: BlendFactor, dst: BlendFactor, op: BlendOperation) -> BlendComponent {
    BlendComponent { src_factor: src, dst_factor: dst, operation: op }
}

/// The blend equation of each blend mode. The shader outputs premultiplied
/// alpha, so `Normal` is premultiplied "over".
pub open spec fn spec_blend_component(mode: BlendMode) -> BlendComponent {
    match mode {
        BlendMode::Normal => component(BlendFactor::One, BlendFactor::OneMinusSrcAlpha, BlendOperation::Add),
        BlendMode::Multiply => component(BlendFactor::Dst, BlendFactor::OneMinusSrcAlpha, BlendOperation::Add),
        BlendMode::ColorDodge => component(BlendFactor::Dst, BlendFactor::One, BlendOperation::Add),
        BlendMode::LinearDodge => component(BlendFactor::One, BlendFactor::One, BlendOperation::Add),
        BlendMode::Screen => component(BlendFactor::One, BlendFactor::OneMinusSrc, BlendOperation::Add),
        BlendMode::ClipToLower => component(BlendFactor::DstAlpha, BlendFactor::OneMinusSrcAlpha, BlendOperation::Add),
        BlendMode::SliceFromLower => component(
            BlendFactor::OneMinusDstAlpha,
            BlendFactor::OneMinusSrcAlpha,
            BlendOperation::Subtract,
        ),
    }
}

fn make_component(src: BlendFactor, dst: BlendFactor, op: BlendOperation) -> (c: BlendComponent)
    ensures
        c == component(src, dst, op),
{
    BlendComponent { src_factor: src, dst_factor: dst, operation: op }
}

/// Maps a blend mode to the blend state of both the mesh and the composite
/// pipelines; colour and alpha are blended alike.
pub fn blend_state_for(mode: BlendMode) -> (state: BlendState)
    ensures
        state.color == spec_blend_component(mode),
        state.alpha == spec_blend_component(mode),
{
    let c = match mode {
        BlendMode::Normal => make_component(BlendFactor::One, BlendFactor::OneMinusSrcAlpha, BlendOperation::Add),
        BlendMode::Multiply => make_component(BlendFactor::Dst, BlendFactor::OneMinusSrcAlpha, BlendOperation::Add),
        BlendMode::ColorDodge => make_component(BlendFactor::Dst, BlendFactor::One, BlendOperation::Add),
        BlendMode::LinearDodge => make_component(BlendFactor::One, BlendFactor::One, BlendOperation::Add),
        BlendMode::Screen => make_component(BlendFactor::One, BlendFactor::OneMinusSrc, BlendOperation::Add),
        BlendMode::ClipToLower => make_component(
            BlendFactor::DstAlpha,
            BlendFactor::OneMinusSrcAlpha,
            BlendOperation::Add,
        ),
        BlendMode::SliceFromLower => make_component(
            BlendFactor::OneMinusDstAlpha,
            BlendFactor::OneMinusSrcAlpha,
            BlendOperation::Subtract,
        ),
    };
    BlendState { color: c, alpha: c }
}

/// Stencil comparison functions used by the pipelines.
#[derive(Debug, Clone, Copy, PartialEq, Eq, Structural)]
pub enum CompareFunction {
    Always,
    Equal,
}

/// Stencil operations used by the pipelines.
#[derive(Debug, Clone, Copy, PartialEq, Eq, Structural)]
pub enum StencilOperation {
    Keep,
    Replace,
}

/// Stencil behaviour of one face of a primitive.
#[derive(Debug, Clone, Copy, PartialEq, Eq, Structural)]
pub struct StencilFaceState {
    pub compare: CompareFunction,
    pub fail_op: StencilOperation,
    pub depth_fail_op: StencilOperation,
    pub pass_op: StencilOperation,
}

/// Formats of the depth-stencil target.
#[derive(Debug, Clone, Copy, PartialEq, Eq, Structural)]
pub enum DepthStencilFormat {
    /// 24-bit depth with an 8-bit stencil.
    Depth24PlusStencil8,
}

/// The depth-stencil and colour-write part of a pipeline.
#[derive(Debug, Clone, Copy, PartialEq, Eq, Structural)]
pub struct MaskConfig {
    pub format: DepthStencilFormat,
    pub depth_write_enabled: bool,
    pub depth_compare: CompareFunction,
    /// Stencil behaviour of front-facing primitives.
    pub front: StencilFaceState,
    /// Stencil behaviour of back-facing primitives.
    pub back: StencilFaceState,
    pub read_mask: u32,
    pub write_mask: u32,
    /// Whether the pipeline writes colour at all (all channels, or none).
    pub writes_color: bool,
}

pub open spec fn face(compare: CompareFunction, pass_op: StencilOperation) -> StencilFaceState {
    StencilFaceState {
        compare,
        fail_op: StencilOperation::Keep,
        depth_fail_op: StencilOperation::Keep,
        pass_op,
    }
}

/// A configuration on the 24/8 depth-stencil target that never writes
/// depth and always passes the depth test, with both faces alike.
pub open spec fn depth_stencil(stencil_face: StencilFaceState, read_mask: u32, write_mask: u32, writes_color: bool) -> MaskConfig {
    MaskConfig {
        format: DepthStencilFormat::Depth24PlusStencil8,
        depth_write_enabled: false,
        depth_compare: CompareFunction::Always,
        front: stencil_face,
        back: stencil_face,
        read_mask,
        write_mask,
        writes_color,
    }
}

/// The depth-stencil configuration of each masking state.
pub open spec fn spec_mask_config(mask: MaskState) -> MaskConfig {
    match mask {
        MaskState::NoMask => depth_stencil(face(CompareFunction::Always, StencilOperation::Keep), 0, 0, true),
        MaskState::WriteMask => depth_stencil(
            face(CompareFunction::Always, StencilOperation::Replace),
            0xFF,
            0xFF,
            false,
        ),
        MaskState::ReadMask(_) => depth_stencil(face(CompareFunction::Equal, StencilOperation::Keep), 0xFF, 0xFF, true),
    }
}

/// Maps a masking state to the depth-stencil settings of both the mesh and
/// the composite pipelines.
pub fn mask_config_for(mask: MaskState) -> (config: MaskConfig)
    ensures
        config == spec_mask_config(mask),
        config.format == DepthStencilFormat::Depth24PlusStencil8,
        !config.depth_write_enabled,
        config.depth_compare == CompareFunction::Always,
        config.front == config.back,
{
    let keep = StencilOperation::Keep;
    let (compare, pass_op, stencil_mask, writes_color) = match mask {
        MaskState::NoMask => (CompareFunction::Always, keep, 0u32, true),
        MaskState::WriteMask => (CompareFunction::Always, StencilOperation::Replace, 0xFFu32, false),
        MaskState::ReadMask(_) => (CompareFunction::Equal, keep, 0xFFu32, true),
    };
    let stencil_face = StencilFaceState { compare, fail_op: keep, depth_fail_op: keep, pass_op };
    MaskConfig {
        format: DepthStencilFormat::Depth24PlusStencil8,
        depth_write_enabled: false,
        depth_compare: CompareFunction::Always,
        front: stencil_face,
        back: stencil_face,
        read_mask: stencil_mask,
        write_mask: stencil_mask,
        writes_color,
    }
}

/// The stencil buffer is only ever written while drawing a mask, mask
/// shapes never reach the colour target, and masked content is drawn only
/// where the stencil equals the reference value.
pub proof fn lemma_masking_isolation(mask: MaskState)
    ensures
        (spec_mask_config(mask).front.pass_op == StencilOperation::Replace) <==> (mask
            == MaskState::WriteMask),
        spec_mask_config(mask).writes_color <==> mask != MaskState::WriteMask,
        mask is ReadMask ==> spec_mask_config(mask).front.compare == CompareFunction::Equal,
        spec_mask_config(mask).front.fail_op == StencilOperation::Keep,
        spec_mask_config(mask).front.depth_fail_op == StencilOperation::Keep,
        spec_mask_config(mask).front == spec_mask_config(mask).back,
        !spec_mask_config(mask).depth_write_enabled,
{
}

/// A recorded masking mode and the pipeline it selects agree: writing a
/// mask selects the stencil-writing pipeline, reading selects the
/// stencil-testing one for the same reference value.
pub proof fn lemma_mask_state_matches_reference(mode: MaskingMode)
    ensures
        mode is WriteMask <==> spec_mask_state_of(mode) == MaskState::WriteMask,
        mode is NoMask <==> spec_mask_state_of(mode) == MaskState::NoMask,
        mode is ReadMask ==> spec_mask_state_of(mode) == MaskState::ReadMask(
            spec_stencil_reference(mode) as u8,
        ),
{
}

/// Whether a fragment passes the stencil test: the value held in the
/// stencil buffer and the reference value are compared under the read mask.
pub open spec fn stencil_test_passes(config: MaskConfig, face: StencilFaceState, stored: u8, reference: u8) -> bool {
    match face.compare {
        CompareFunction::Always => true,
        CompareFunction::Equal => (stored as u32 & config.read_mask) == (reference as u32 & config.read_mask),
    }
}

/// The stencil value after a fragment was tested. Depth always passes, so
/// the failing operation applies when the stencil test fails and the
/// passing one when it passes; only the bits of the write mask change.
pub open spec fn stencil_after(config: MaskConfig, face: StencilFaceState, stored: u8, reference: u8) -> u32 {
    let op = if stencil_test_passes(config, face, stored, reference) {
        face.pass_op
    } else {
        face.fail_op
    };
    let new_value: u32 = match op {
        StencilOperation::Keep => stored as u32,
        StencilOperation::Replace => reference as u32,
    };
    (stored as u32 & !config.write_mask) | (new_value & config.write_mask)
}

/// The faces of a configuration: front-facing and back-facing primitives.
pub open spec fn faces(config: MaskConfig) -> Seq<StencilFaceState> {
    seq![config.front, config.back]
}

proof fn lemma_byte_masks(x: u8)
    ensures
        (x as u32 & 0xFFu32) == x as u32,
        (x as u32 & !0xFFu32) == 0u32,
        (x as u32 & 0u32) == 0u32,
        (x as u32 & !0u32) == x as u32,
        (0u32 | (x as u32)) == x as u32,
        ((x as u32) | 0u32) == x as u32,
{
    assert((x as u32 & 0xFFu32) == x as u32) by (bit_vector);
    assert((x as u32 & !0xFFu32) == 0u32) by (bit_vector);
    assert((x as u32 & 0u32) == 0u32) by (bit_vector);
    assert((x as u32 & !0u32) == x as u32) by (bit_vector);
    assert((0u32 | (x as u32)) == x as u32) by (bit_vector);
    assert(((x as u32) | 0u32) == x as u32) by (bit_vector);
}

/// Drawing a mask's shapes: on either face, every fragment passes the
/// stencil test, whatever the stencil held, and leaves the reference value
/// in the stencil buffer; no colour is written.
pub proof fn lemma_write_mask_stamps_reference(stored: u8, reference: u8, k: int)
    requires
        0 <= k < 2,
    ensures
        ({
            let config = spec_mask_config(MaskState::WriteMask);
            let face = faces(config)[k];
            &&& stencil_test_passes(config, face, stored, reference)
            &&& stencil_after(config, face, stored, reference) == reference as u32
            &&& !config.writes_color
        }),
{
    lemma_byte_masks(stored);
    lemma_byte_masks(reference);
}

/// Drawing masked content: on either face a fragment passes just where the
/// stencil holds the reference value, and the stencil is left as it was.
pub proof fn lemma_read_mask_tests_reference(v: u8, stored: u8, reference: u8, k: int)
    requires
        0 <= k < 2,
    ensures
        ({
            let config = spec_mask_config(MaskState::ReadMask(v));
            let face = faces(config)[k];
            &&& stencil_test_passes(config, face, stored, reference) <==> stored == reference
            &&& stencil_after(config, face, stored, reference) == stored as u32
            &&& config.writes_color
        }),
{
    lemma_byte_masks(stored);
    lemma_byte_masks(reference);
}

/// Unmasked drawing ignores the stencil buffer: every fragment passes and
/// the stencil is left as it was.
pub proof fn lemma_no_mask_ignores_stencil(stored: u8, reference: u8, k: int)
    requires
        0 <= k < 2,
    ensures
        ({
            let config = spec_mask_config(MaskState::NoMask);
            let face = faces(config)[k];
            &&& stencil_test_passes(config, face, stored, reference)
            &&& stencil_after(config, face, stored, reference) == stored as u32
            &&& config.writes_color
        }),
{
    lemma_byte_masks(stored);
    lemma_byte_masks(reference);
}

/// A mask clips its content: where a mask shape was drawn with reference
/// value `r`, content drawn with the same reference passes the test and is
/// drawn, whatever the stencil held before; where the stencil holds any
/// other value, the content is not drawn.
pub proof fn lemma_mask_clips_content(stored: u8, r: u8, k: int)
    requires
        0 <= k < 2,
    ensures
        ({
            let w = spec_mask_config(MaskState::WriteMask);
            let c = spec_mask_config(MaskState::ReadMask(r));
            let stamped = stencil_after(w, faces(w)[k], stored, r);
            &&& stamped == r as u32
            &&& stencil_test_passes(c, faces(c)[k], r, r)
            &&& stored != r ==> !stencil_test_passes(c, faces(c)[k], stored, r)
        }),
{
    lemma_write_mask_stamps_reference(stored, r, k);
    lemma_read_mask_tests_reference(r, r, r, k);
    lemma_read_mask_tests_reference(r, stored, r, k);
}

/// Value of a blend factor for one channel, where `unit` stands for 1:
/// `src` and `dst` are the channel's source and target values (for the
/// alpha channel, the alphas themselves), `src_alpha` and `dst_alpha` the
/// alphas.
pub open spec fn factor_value(f: BlendFactor, unit: int, src: int, src_alpha: int, dst: int, dst_alpha: int) -> int {
    match f {
        BlendFactor::One => unit,
        BlendFactor::Dst => dst,
        BlendFactor::DstAlpha => dst_alpha,
        BlendFactor::OneMinusSrc => unit - src,
        BlendFactor::OneMinusSrcAlpha => unit - src_alpha,
        BlendFactor::OneMinusDstAlpha => unit - dst_alpha,
    }
}

/// The blended value of one channel, in units of `unit * unit`: the source
/// times its factor, plus (or minus) the target times its factor.
pub open spec fn blend_channel(c: BlendComponent, unit: int, src: int, src_alpha: int, dst: int, dst_alpha: int) -> int {
    let s = src * factor_value(c.src_factor, unit, src, src_alpha, dst, dst_alpha);
    let d = dst * factor_value(c.dst_factor, unit, src, src_alpha, dst, dst_alpha);
    match c.operation {
        BlendOperation::Add => s + d,
        BlendOperation::Subtract => s - d,
    }
}

/// What each blend mode computes for a channel (premultiplied colours,
/// `unit` standing for 1, results in units of `unit * unit`):
/// normal is "over", multiply multiplies the source into the target,
/// colour dodge adds the product to the target, linear dodge adds source
/// and target, screen is the complement of the product of complements,
/// clip-to-lower draws the source only as far as the target is opaque, and
/// slice-from-lower keeps the source only where the target is transparent
/// and cuts the target away under it.
pub proof fn lemma_blend_modes_compute(mode: BlendMode, unit: int, src: int, src_alpha: int, dst: int, dst_alpha: int)
    ensures
        blend_channel(spec_blend_component(mode), unit, src, src_alpha, dst, dst_alpha) == match mode {
            BlendMode::Normal => src * unit + dst * (unit - src_alpha),
            BlendMode::Multiply => src * dst + dst * (unit - src_alpha),
            BlendMode::ColorDodge => src * dst + dst * unit,
            BlendMode::LinearDodge => src * unit + dst * unit,
            BlendMode::Screen => src * unit + dst * (unit - src),
            BlendMode::ClipToLower => src * dst_alpha + dst * (unit - src_alpha),
            BlendMode::SliceFromLower => src * (unit - dst_alpha) - dst * (unit - src_alpha),
        },
{
}

/// A fully transparent source (zero colour, zero alpha) leaves the target
/// as it was in every blend mode except slice-from-lower, which cuts the
/// target away.
pub proof fn lemma_transparent_source_keeps_target(mode: BlendMode, unit: int, dst: int, dst_alpha: int)
    ensures
        mode != BlendMode::SliceFromLower ==> blend_channel(spec_blend_component(mode), unit, 0, 0, dst, dst_alpha)
            == dst * unit,
        mode == BlendMode::SliceFromLower ==> blend_channel(spec_blend_component(mode), unit, 0, 0, dst, dst_alpha)
            == -(dst * unit),
{
    assert(0 * unit == 0 && 0 * dst == 0 && 0 * dst_alpha == 0 && 0 * (unit - dst_alpha) == 0) by (nonlinear_arith);
}

/// Screen never darkens: with channels in `0..=unit`, the result is at
/// least as bright as both the source and the target, and stays in range.
pub proof fn lemma_screen_brightens(unit: int, src: int, src_alpha: int, dst: int, dst_alpha: int)
    requires
        0 <= src <= unit,
        0 <= dst <= unit,
    ensures
        blend_channel(spec_blend_component(BlendMode::Screen), unit, src, src_alpha, dst, dst_alpha) >= src * unit,
        blend_channel(spec_blend_component(BlendMode::Screen), unit, src, src_alpha, dst, dst_alpha) >= dst * unit,
        blend_channel(spec_blend_component(BlendMode::Screen), unit, src, src_alpha, dst, dst_alpha) <= unit * unit,
{
    let r = src * unit + dst * (unit - src);
    assert(r >= src * unit) by (nonlinear_arith)
        requires
            0 <= src <= unit,
            0 <= dst,
            r == src * unit + dst * (unit - src),
    ;
    assert(r >= dst * unit) by (nonlinear_arith)
        requires
            0 <= src <= unit,
            0 <= dst <= unit,
            r == src * unit + dst * (unit - src),
    ;
    assert(r <= unit * unit) by (nonlinear_arith)
        requires
            0 <= src <= unit,
            0 <= dst <= unit,
            r == src * unit + dst * (unit - src),
    ;
}

/// Every blend mode but slice-from-lower adds the weighted source and
/// target; slice-from-lower subtracts the target's share.
pub proof fn lemma_blend_is_additive(mode: BlendMode)
    ensures
        (spec_blend_component(mode).operation == BlendOperation::Add) <==> mode != BlendMode::SliceFromLower,
{
}

} // verus!
