//! The recorded draw commands.

use vstd::prelude::*;
use crate::seqs::pick;

verus! {

/// Number of bytes of one packed uniform block (a column-major 4x4 matrix,
/// two colours, an offset and two scalars, all 32-bit floats).
pub const UNIFORM_SIZE: usize = 112;

/// Stencil state of the draw stream.
#[derive(Debug, Clone, Copy, PartialEq, Eq, Structural)]
pub enum MaskingMode {
    /// No stencil test.
    NoMask,
    /// Drawing into the stencil buffer with the given reference value.
    WriteMask(u8),
    /// Drawing content clipped to the stencil with the given reference value.
    ReadMask(u8),
}

/// How a drawable is blended onto what lies below it.
#[derive(Debug, Clone, Copy, PartialEq, Eq, Structural)]
pub enum BlendMode {
    Normal,
    Multiply,
    ColorDodge,
    LinearDodge,
    Screen,
    ClipToLower,
    SliceFromLower,
}

/// The packed bytes of one uniform block, exactly as the shader reads them.
#[derive(Debug, Clone, Copy)]
pub struct UniformBlock {
    pub bytes: [u8; UNIFORM_SIZE],
}

/// A command captures all data required to issue a single draw call (or
/// state change) later. Floating-point values (opacity) are carried by
/// their IEEE-754 bit patterns.
#[derive(Debug, Clone, Copy)]
pub enum RenderCommand {
    /// Change the masking state.
    SetMaskingMode(MaskingMode),
    /// Draw a textured mesh.
    Draw {
        texture_index: usize,
        index_offset: u32,
        index_count: u32,
        blend_mode: BlendMode,
        opacity: u32,
        uniforms: UniformBlock,
    },
    /// Start drawing into the composite targets.
    BeginComposite,
    /// Draw the composite targets back onto the main target.
    EndComposite {
        index_offset: u32,
        index_count: u32,
        blend_mode: BlendMode,
        opacity: u32,
        uniforms: UniformBlock,
    },
}

impl RenderCommand {
    /// The uniform block that a drawing command carries.
    pub open spec fn uniforms_of(self) -> Option<UniformBlock> {
        match self {
            RenderCommand::Draw { uniforms, .. } => Some(uniforms),
            RenderCommand::EndComposite { uniforms, .. } => Some(uniforms),
            _ => None,
        }
    }

    /// Whether the command issues a draw call (and so consumes a uniform slot).
    pub open spec fn is_drawing(self) -> bool {
        self is Draw || self is EndComposite
    }
}

/// The uniform block of a recorded command, if it draws.
pub open spec fn uniforms_in(c: (usize, RenderCommand)) -> Option<UniformBlock> {
    c.1.uniforms_of()
}

/// The uniform blocks of a command list, in order, one per drawing command.
pub open spec fn uniform_blocks(cmds: Seq<(usize, RenderCommand)>) -> Seq<UniformBlock> {
    pick(cmds, |c: (usize, RenderCommand)| uniforms_in(c))
}

/// Number of drawing commands in a command list.
pub open spec fn drawing_count(cmds: Seq<(usize, RenderCommand)>) -> nat {
    uniform_blocks(cmds).len()
}

} // verus!
