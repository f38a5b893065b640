//! Turning the recorded commands into render-pass operations.
//!
//! Commands are executed in passes. A `BeginComposite` command opens a pass
//! that draws into the composite targets (for the puppet of the command that
//! follows it); an `EndComposite` command is drawn in a main pass onto the
//! frame, opening one if needed; any other command opens a main pass when no
//! pass is open yet. Within a pass, a pipeline or texture bind group is only
//! set again when it differs from the last one set; each draw gets the next
//! slot of the dynamic uniform buffer.

use vstd::prelude::*;
use crate::cmd::{BlendMode, MaskingMode, RenderCommand, UNIFORM_SIZE, drawing_count, uniform_blocks, uniforms_in};
use crate::pipeline::{MaskState, mask_state_of, stencil_reference, spec_mask_state_of, spec_stencil_reference};
use crate::seqs::{pick, lemma_pick_concat, lemma_pick_single, lemma_pick_take_step, lemma_pick_take_len};
use crate::uniforms::{staging_of, lemma_block_at_slot};

verus! {

/// Which target a render pass draws into.
#[derive(Debug, Clone, Copy, PartialEq, Eq, Structural)]
pub enum PassKind {
    /// The frame's colour target, loaded and stored.
    Main,
    /// The composite targets, cleared at the start of the pass.
    Composite,
}

/// One operation of the GPU backend.
#[derive(Debug, Clone, Copy, PartialEq, Eq, Structural)]
pub enum RenderStep {
    /// End the open pass (if any) and begin a new one, binding the vertex
    /// and index buffers of the given puppet.
    BeginPass { kind: PassKind, puppet_id: usize },
    /// Bind the vertex and index buffers of the given puppet.
    BindBuffers { puppet_id: usize },
    SetStencilReference(u32),
    /// Bind the mesh pipeline (or, with `composite`, the composite one) for
    /// a blend mode and masking state.
    SetPipeline { blend_mode: BlendMode, mask: MaskState, composite: bool },
    /// Bind texture `texture_index` of the given puppet at group 0.
    SetTextureBindGroup { puppet_id: usize, texture_index: usize },
    /// Bind the composite targets at group 0.
    SetCompositeBindGroup,
    /// Bind the uniform buffer at group 1 with this dynamic offset.
    SetUniformBindGroup { offset: u32 },
    /// Draw the indices `start..end`.
    DrawIndexed { start: u32, end: u32 },
}

/// The state carried from one command to the next while planning.
pub ghost struct PlanState {
    pub pass: Option<PassKind>,
    pub mask_mode: MaskingMode,
    pub uniform_offset: nat,
    /// The puppet whose vertex and index buffers are bound.
    pub bound_buffers: Option<usize>,
    pub last_pipeline: Option<(BlendMode, MaskingMode)>,
    /// The bound texture, as (puppet, texture index).
    pub last_texture: Option<(usize, usize)>,
}

pub open spec fn initial_plan_state() -> PlanState {
    PlanState {
        pass: None,
        mask_mode: MaskingMode::NoMask,
        uniform_offset: 0,
        bound_buffers: None,
        last_pipeline: None,
        last_texture: None,
    }
}

/// Beginning a pass binds the buffers of its puppet and forgets which
/// pipeline and texture were bound.
pub open spec fn begin_pass(st: PlanState, kind: PassKind, puppet_id: usize) -> PlanState {
    PlanState {
        pass: Some(kind),
        mask_mode: st.mask_mode,
        uniform_offset: st.uniform_offset,
        bound_buffers: Some(puppet_id),
        last_pipeline: None,
        last_texture: None,
    }
}

/// Opens the main pass if no pass is open.
pub open spec fn open_any_pass(st: PlanState, puppet_id: usize) -> (PlanState, Seq<RenderStep>) {
    if st.pass is None {
        (
            begin_pass(st, PassKind::Main, puppet_id),
            seq![RenderStep::BeginPass { kind: PassKind::Main, puppet_id }],
        )
    } else {
        (st, Seq::empty())
    }
}

/// Opens the main pass unless it is the open one.
pub open spec fn open_main_pass(st: PlanState, puppet_id: usize) -> (PlanState, Seq<RenderStep>) {
    if st.pass == Some(PassKind::Main) {
        (st, Seq::empty())
    } else {
        (
            begin_pass(st, PassKind::Main, puppet_id),
            seq![RenderStep::BeginPass { kind: PassKind::Main, puppet_id }],
        )
    }
}

/// Binds the buffers of a puppet unless they are the bound ones.
pub open spec fn bind_buffers(st: PlanState, puppet_id: usize) -> (PlanState, Seq<RenderStep>) {
    if st.bound_buffers == Some(puppet_id) {
        (st, Seq::empty())
    } else {
        (
            PlanState { bound_buffers: Some(puppet_id), ..st },
            seq![RenderStep::BindBuffers { puppet_id }],
        )
    }
}

/// The steps of a masking-mode change.
pub open spec fn plan_set_mask(st: PlanState, puppet_id: usize, mode: MaskingMode) -> (PlanState, Seq<RenderStep>) {
    let (s0, pre) = open_any_pass(st, puppet_id);
    (
        PlanState { mask_mode: mode, ..s0 },
        pre + seq![RenderStep::SetStencilReference(spec_stencil_reference(mode))],
    )
}

/// The steps of a mesh draw: the puppet's buffers, the pipeline and the
/// puppet's texture are bound only when they differ from the ones bound
/// last in the pass.
pub open spec fn plan_draw(
    st: PlanState,
    puppet_id: usize,
    texture_index: usize,
    index_offset: u32,
    index_count: u32,
    blend_mode: BlendMode,
) -> (PlanState, Seq<RenderStep>) {
    let (s0, pre) = open_any_pass(st, puppet_id);
    let (s1, bufs) = bind_buffers(s0, puppet_id);
    let key = (blend_mode, s1.mask_mode);
    let pipe = if s1.last_pipeline == Some(key) {
        Seq::empty()
    } else {
        seq![RenderStep::SetPipeline { blend_mode, mask: spec_mask_state_of(s1.mask_mode), composite: false }]
    };
    let tex = if s1.last_texture == Some((puppet_id, texture_index)) {
        Seq::empty()
    } else {
        seq![RenderStep::SetTextureBindGroup { puppet_id, texture_index }]
    };
    (
        PlanState {
            pass: s1.pass,
            mask_mode: s1.mask_mode,
            uniform_offset: s1.uniform_offset + 256,
            bound_buffers: s1.bound_buffers,
            last_pipeline: Some(key),
            last_texture: Some((puppet_id, texture_index)),
        },
        pre + bufs + pipe + tex + seq![RenderStep::SetUniformBindGroup { offset: s1.uniform_offset as u32 }]
            + seq![RenderStep::DrawIndexed { start: index_offset, end: (index_offset + index_count) as u32 }],
    )
}

/// The steps that draw the composite targets onto the frame, with the
/// composite quad of the puppet's buffers. They always bind the composite
/// pipeline and the composite targets, so afterwards no mesh pipeline or
/// texture counts as bound.
pub open spec fn plan_end_composite(
    st: PlanState,
    puppet_id: usize,
    index_offset: u32,
    index_count: u32,
    blend_mode: BlendMode,
) -> (PlanState, Seq<RenderStep>) {
    let (s0, pre) = open_main_pass(st, puppet_id);
    let (s1, bufs) = bind_buffers(s0, puppet_id);
    (
        PlanState {
            pass: s1.pass,
            mask_mode: s1.mask_mode,
            uniform_offset: s1.uniform_offset + 256,
            bound_buffers: s1.bound_buffers,
            last_pipeline: None,
            last_texture: None,
        },
        pre + bufs + seq![RenderStep::SetPipeline { blend_mode, mask: MaskState::NoMask, composite: true }]
            + seq![RenderStep::SetCompositeBindGroup]
            + seq![RenderStep::SetUniformBindGroup { offset: s1.uniform_offset as u32 }]
            + seq![RenderStep::DrawIndexed { start: index_offset, end: (index_offset + index_count) as u32 }],
    )
}

/// The steps that command `i` produces, and the state after it.
pub open spec fn plan_step(cmds: Seq<(usize, RenderCommand)>, i: int, st: PlanState) -> (PlanState, Seq<RenderStep>) {
    let puppet_id = cmds[i].0;
    match cmds[i].1 {
        RenderCommand::BeginComposite => (
            begin_pass(st, PassKind::Composite, cmds[i + 1].0),
            seq![RenderStep::BeginPass { kind: PassKind::Composite, puppet_id: cmds[i + 1].0 }],
        ),
        RenderCommand::SetMaskingMode(mode) => plan_set_mask(st, puppet_id, mode),
        RenderCommand::Draw { texture_index, index_offset, index_count, blend_mode, .. } => plan_draw(
            st,
            puppet_id,
            texture_index,
            index_offset,
            index_count,
            blend_mode,
        ),
        RenderCommand::EndComposite { index_offset, index_count, blend_mode, .. } => plan_end_composite(
            st,
            puppet_id,
            index_offset,
            index_count,
            blend_mode,
        ),
    }
}

/// The steps of the first `n` commands, and the state after them.
pub open spec fn plan_prefix(cmds: Seq<(usize, RenderCommand)>, n: nat) -> (PlanState, Seq<RenderStep>)
    decreases n,
{
    if n == 0 {
        (initial_plan_state(), Seq::empty())
    } else {
        let (st, steps) = plan_prefix(cmds, (n - 1) as nat);
        let (st2, more) = plan_step(cmds, n - 1, st);
        (st2, steps + more)
    }
}

/// The steps that execute a whole command list.
pub open spec fn render_plan(cmds: Seq<(usize, RenderCommand)>) -> Seq<RenderStep> {
    plan_prefix(cmds, cmds.len()).1
}

/// The index range of a drawing command fits in 32 bits.
pub open spec fn draw_range_fits(c: RenderCommand) -> bool {
    match c {
        RenderCommand::Draw { index_offset, index_count, .. } => index_offset + index_count <= u32::MAX,
        RenderCommand::EndComposite { index_offset, index_count, .. } => index_offset + index_count
            <= u32::MAX,
        _ => true,
    }
}

/// The command lists that can be executed: a composite pass needs a command
/// after its `BeginComposite` (to know whose buffers to bind), index ranges
/// and dynamic uniform offsets fit in 32 bits.
pub open spec fn plannable(cmds: Seq<(usize, RenderCommand)>) -> bool {
    &&& cmds.len() > 0 ==> !(cmds.last().1 is BeginComposite)
    &&& forall|i: int| 0 <= i < cmds.len() ==> #[trigger] draw_range_fits(cmds[i].1)
    &&& drawing_count(cmds) * 256 <= u32::MAX
}

/// Whether a command list can be executed (see `plannable`).
pub fn check_plannable(cmds: &[(usize, RenderCommand)]) -> (ok: bool)
    ensures
        ok == plannable(cmds@),
{
    let n = cmds.len();
    if n > 0 {
        if let RenderCommand::BeginComposite = cmds[n - 1].1 {
            return false;
        }
    }
    let mut draws: u64 = 0;
    let mut i: usize = 0;
    while i < n
        invariant
            0 <= i <= n,
            n == cmds@.len(),
            n > 0 ==> !(cmds@.last().1 is BeginComposite),
            forall|j: int| 0 <= j < i ==> #[trigger] draw_range_fits(cmds@[j].1),
            draws == drawing_count(cmds@.take(i as int)),
            draws * 256 <= u32::MAX,
        decreases n - i,
    {
        proof {
            lemma_pick_take_step(cmds@, i as int, |c: (usize, RenderCommand)| uniforms_in(c));
            lemma_pick_single(cmds@[i as int], |c: (usize, RenderCommand)| uniforms_in(c));
        }
        let fits = match cmds[i].1 {
            RenderCommand::Draw { index_offset, index_count, .. } => index_count <= u32::MAX - index_offset,
            RenderCommand::EndComposite { index_offset, index_count, .. } => index_count <= u32::MAX
                - index_offset,
            _ => true,
        };
        if !fits {
            assert(!draw_range_fits(cmds@[i as int].1));
            return false;
        }
        let drawing = match cmds[i].1 {
            RenderCommand::Draw { .. } => true,
            RenderCommand::EndComposite { .. } => true,
            _ => false,
        };
        if drawing {
            if (draws + 1) * 256 > u32::MAX as u64 {
                proof {
                    lemma_pick_take_len(cmds@, i + 1, |c: (usize, RenderCommand)| uniforms_in(c));
                }
                return false;
            }
            draws = draws + 1;
        }
        i = i + 1;
    }
    assert(cmds@.take(n as int) == cmds@);
    true
}

/// The planner's running state and the steps planned so far.
struct Planner {
    steps: Vec<RenderStep>,
    pass: Option<PassKind>,
    mask_mode: MaskingMode,
    offset: u32,
    bound_buffers: Option<usize>,
    last_pipeline: Option<(BlendMode, MaskingMode)>,
    last_texture: Option<(usize, usize)>,
}

impl Planner {
    spec fn state(&self) -> PlanState {
        PlanState {
            pass: self.pass,
            mask_mode: self.mask_mode,
            uniform_offset: self.offset as nat,
            bound_buffers: self.bound_buffers,
            last_pipeline: self.last_pipeline,
            last_texture: self.last_texture,
        }
    }

    fn begin_pass(&mut self, kind: PassKind, puppet_id: usize)
        ensures
            final(self).state() == begin_pass(old(self).state(), kind, puppet_id),
            final(self).steps@ == old(self).steps@ + seq![RenderStep::BeginPass { kind, puppet_id }],
    {
        self.steps.push(RenderStep::BeginPass { kind, puppet_id });
        self.pass = Some(kind);
        self.bound_buffers = Some(puppet_id);
        self.last_pipeline = None;
        self.last_texture = None;
    }

    fn open_any_pass(&mut self, puppet_id: usize)
        ensures
            final(self).state() == open_any_pass(old(self).state(), puppet_id).0,
            final(self).steps@ == old(self).steps@ + open_any_pass(old(self).state(), puppet_id).1,
    {
        if self.pass.is_none() {
            self.begin_pass(PassKind::Main, puppet_id);
        } else {
            assert(self.steps@ == self.steps@ + Seq::<RenderStep>::empty());
        }
    }

    fn bind_buffers(&mut self, puppet_id: usize)
        ensures
            final(self).state() == bind_buffers(old(self).state(), puppet_id).0,
            final(self).steps@ == old(self).steps@ + bind_buffers(old(self).state(), puppet_id).1,
    {
        let bound = match self.bound_buffers {
            Some(q) => q == puppet_id,
            None => false,
        };
        if !bound {
            self.steps.push(RenderStep::BindBuffers { puppet_id });
            self.bound_buffers = Some(puppet_id);
        } else {
            assert(self.steps@ == self.steps@ + Seq::<RenderStep>::empty());
        }
    }

    fn set_mask(&mut self, puppet_id: usize, mode: MaskingMode)
        ensures
            final(self).state() == plan_set_mask(old(self).state(), puppet_id, mode).0,
            final(self).steps@ == old(self).steps@ + plan_set_mask(old(self).state(), puppet_id, mode).1,
    {
        self.open_any_pass(puppet_id);
        self.mask_mode = mode;
        self.steps.push(RenderStep::SetStencilReference(stencil_reference(mode)));
    }

    fn draw(
        &mut self,
        puppet_id: usize,
        texture_index: usize,
        index_offset: u32,
        index_count: u32,
        blend_mode: BlendMode,
    )
        requires
            old(self).offset + 256 <= u32::MAX,
            index_offset + index_count <= u32::MAX,
        ensures
            final(self).state() == plan_draw(
                old(self).state(),
                puppet_id,
                texture_index,
                index_offset,
                index_count,
                blend_mode,
            ).0,
            final(self).steps@ == old(self).steps@ + plan_draw(
                old(self).state(),
                puppet_id,
                texture_index,
                index_offset,
                index_count,
                blend_mode,
            ).1,
    {
        let ghost before = self.steps@;
        self.open_any_pass(puppet_id);
        let ghost s_pre = self.steps@;
        let ghost st0 = self.state();
        self.bind_buffers(puppet_id);
        let ghost s_bufs = self.steps@;
        let same_pipeline = match self.last_pipeline {
            Some((b, m)) => b == blend_mode && m == self.mask_mode,
            None => false,
        };
        if !same_pipeline {
            let mask = mask_state_of(self.mask_mode);
            self.steps.push(RenderStep::SetPipeline { blend_mode, mask, composite: false });
            self.last_pipeline = Some((blend_mode, self.mask_mode));
        }
        let ghost s_pipe = self.steps@;
        let same_texture = match self.last_texture {
            Some((q, t)) => q == puppet_id && t == texture_index,
            None => false,
        };
        if !same_texture {
            self.steps.push(RenderStep::SetTextureBindGroup { puppet_id, texture_index });
            self.last_texture = Some((puppet_id, texture_index));
        }
        let ghost s_tex = self.steps@;
        self.steps.push(RenderStep::SetUniformBindGroup { offset: self.offset });
        self.steps.push(RenderStep::DrawIndexed { start: index_offset, end: index_offset + index_count });
        self.offset = self.offset + 256;
        proof {
            let (s0, pre) = open_any_pass(old(self).state(), puppet_id);
            let (s1, bufs) = bind_buffers(s0, puppet_id);
            let key = (blend_mode, s1.mask_mode);
            let pipe = if s1.last_pipeline == Some(key) {
                Seq::<RenderStep>::empty()
            } else {
                seq![RenderStep::SetPipeline { blend_mode, mask: spec_mask_state_of(s1.mask_mode), composite: false }]
            };
            let tex = if s1.last_texture == Some((puppet_id, texture_index)) {
                Seq::<RenderStep>::empty()
            } else {
                seq![RenderStep::SetTextureBindGroup { puppet_id, texture_index }]
            };
            assert(s_bufs == s_pre + bufs);
            assert(s_pipe == s_bufs + pipe);
            assert(s_tex == s_pipe + tex);
            assert(self.steps@ == before + pre + bufs + pipe + tex + seq![RenderStep::SetUniformBindGroup { offset: s1.uniform_offset as u32 }]
                + seq![RenderStep::DrawIndexed { start: index_offset, end: (index_offset + index_count) as u32 }]);
        }
    }

    fn end_composite(&mut self, puppet_id: usize, index_offset: u32, index_count: u32, blend_mode: BlendMode)
        requires
            old(self).offset + 256 <= u32::MAX,
            index_offset + index_count <= u32::MAX,
        ensures
            final(self).state() == plan_end_composite(
                old(self).state(),
                puppet_id,
                index_offset,
                index_count,
                blend_mode,
            ).0,
            final(self).steps@ == old(self).steps@ + plan_end_composite(
                old(self).state(),
                puppet_id,
                index_offset,
                index_count,
                blend_mode,
            ).1,
    {
        let ghost before = self.steps@;
        let in_main = match self.pass {
            Some(PassKind::Main) => true,
            _ => false,
        };
        if !in_main {
            self.begin_pass(PassKind::Main, puppet_id);
        }
        let ghost s_pre = self.steps@;
        self.bind_buffers(puppet_id);
        let ghost s_bufs = self.steps@;
        self.steps.push(RenderStep::SetPipeline { blend_mode, mask: MaskState::NoMask, composite: true });
        self.steps.push(RenderStep::SetCompositeBindGroup);
        self.steps.push(RenderStep::SetUniformBindGroup { offset: self.offset });
        self.steps.push(RenderStep::DrawIndexed { start: index_offset, end: index_offset + index_count });
        self.offset = self.offset + 256;
        self.last_pipeline = None;
        self.last_texture = None;
        proof {
            let (s0, pre) = open_main_pass(old(self).state(), puppet_id);
            let (s1, bufs) = bind_buffers(s0, puppet_id);
            assert(s_pre == before + pre);
            assert(s_bufs == s_pre + bufs);
            assert(self.steps@ == before + pre + bufs + seq![RenderStep::SetPipeline { blend_mode, mask: MaskState::NoMask, composite: true }]
                + seq![RenderStep::SetCompositeBindGroup]
                + seq![RenderStep::SetUniformBindGroup { offset: s1.uniform_offset as u32 }]
                + seq![RenderStep::DrawIndexed { start: index_offset, end: (index_offset + index_count) as u32 }]);
        }
    }
}

/// Plans the execution of the recorded commands.
pub fn plan_render(cmds: &[(usize, RenderCommand)]) -> (steps: Vec<RenderStep>)
    requires
        plannable(cmds@),
    ensures
        steps@ == render_plan(cmds@),
{
    let mut p = Planner {
        steps: Vec::new(),
        pass: None,
        mask_mode: MaskingMode::NoMask,
        offset: 0,
        bound_buffers: None,
        last_pipeline: None,
        last_texture: None,
    };
    let mut i: usize = 0;
    while i < cmds.len()
        invariant
            0 <= i <= cmds@.len(),
            plannable(cmds@),
            p.steps@ == plan_prefix(cmds@, i as nat).1,
            p.state() == plan_prefix(cmds@, i as nat).0,
        decreases cmds@.len() - i,
    {
        proof {
            lemma_offset_counts(cmds@, i as nat);
            lemma_pick_take_step(cmds@, i as int, |c: (usize, RenderCommand)| uniforms_in(c));
            lemma_pick_single(cmds@[i as int], |c: (usize, RenderCommand)| uniforms_in(c));
            lemma_pick_take_len(cmds@, i + 1, |c: (usize, RenderCommand)| uniforms_in(c));
            assert(draw_range_fits(cmds@[i as int].1));
        }
        let (puppet_id, cmd) = cmds[i];
        match cmd {
            RenderCommand::BeginComposite => {
                let next = cmds[i + 1].0;
                p.begin_pass(PassKind::Composite, next);
            },
            RenderCommand::SetMaskingMode(mode) => {
                p.set_mask(puppet_id, mode);
            },
            RenderCommand::Draw { texture_index, index_offset, index_count, blend_mode, .. } => {
                p.draw(puppet_id, texture_index, index_offset, index_count, blend_mode);
            },
            RenderCommand::EndComposite { index_offset, index_count, blend_mode, .. } => {
                p.end_composite(puppet_id, index_offset, index_count, blend_mode);
            },
        }
        i = i + 1;
    }
    p.steps
}

/// The dynamic uniform offset reached after `n` commands is one slot per
/// drawing command among them.
pub proof fn lemma_offset_counts(cmds: Seq<(usize, RenderCommand)>, n: nat)
    requires
        n <= cmds.len(),
    ensures
        plan_prefix(cmds, n).0.uniform_offset == 256 * drawing_count(cmds.take(n as int)),
    decreases n,
{
    let f = |c: (usize, RenderCommand)| uniforms_in(c);
    if n == 0 {
        assert(cmds.take(0) == Seq::<(usize, RenderCommand)>::empty());
    } else {
        lemma_offset_counts(cmds, (n - 1) as nat);
        lemma_pick_take_step(cmds, n - 1, f);
        lemma_pick_single(cmds[n - 1], f);
    }
}

/// The dynamic uniform offset a step binds.
pub open spec fn step_uniform_offset(s: RenderStep) -> Option<u32> {
    match s {
        RenderStep::SetUniformBindGroup { offset } => Some(offset),
        _ => None,
    }
}

/// The index range a step draws.
pub open spec fn step_draw_range(s: RenderStep) -> Option<(u32, u32)> {
    match s {
        RenderStep::DrawIndexed { start, end } => Some((start, end)),
        _ => None,
    }
}

/// The stencil reference a step sets.
pub open spec fn step_stencil_reference(s: RenderStep) -> Option<u32> {
    match s {
        RenderStep::SetStencilReference(r) => Some(r),
        _ => None,
    }
}

/// The index range a recorded command draws.
pub open spec fn cmd_draw_range(c: (usize, RenderCommand)) -> Option<(u32, u32)> {
    match c.1 {
        RenderCommand::Draw { index_offset, index_count, .. } => Some(
            (index_offset, (index_offset + index_count) as u32),
        ),
        RenderCommand::EndComposite { index_offset, index_count, .. } => Some(
            (index_offset, (index_offset + index_count) as u32),
        ),
        _ => None,
    }
}

/// The stencil reference a recorded command selects.
pub open spec fn cmd_stencil_reference(c: (usize, RenderCommand)) -> Option<u32> {
    match c.1 {
        RenderCommand::SetMaskingMode(mode) => Some(spec_stencil_reference(mode)),
        _ => None,
    }
}

/// Steps that neither bind uniforms, draw, nor set a stencil reference.
pub open spec fn is_binding_only(s: RenderStep) -> bool {
    s is BeginPass || s is BindBuffers || s is SetPipeline || s is SetTextureBindGroup || s is SetCompositeBindGroup
}

proof fn lemma_pick_binding_only<B>(s: Seq<RenderStep>, f: spec_fn(RenderStep) -> Option<B>)
    requires
        forall|k: int| 0 <= k < s.len() ==> is_binding_only(#[trigger] s[k]),
        forall|x: RenderStep| is_binding_only(x) ==> (#[trigger] f(x)) is None,
    ensures
        pick(s, f) == Seq::<B>::empty(),
    decreases s.len(),
{
    if s.len() > 0 {
        assert(is_binding_only(s[s.len() - 1]));
        lemma_pick_binding_only(s.drop_last(), f);
    }
}

proof fn lemma_pick_tail<B>(a: Seq<RenderStep>, x: RenderStep, f: spec_fn(RenderStep) -> Option<B>)
    requires
        forall|k: int| 0 <= k < a.len() ==> is_binding_only(#[trigger] a[k]),
        forall|y: RenderStep| is_binding_only(y) ==> (#[trigger] f(y)) is None,
    ensures
        pick(a + seq![x], f) == pick(seq![x], f),
{
    lemma_pick_concat(a, seq![x], f);
    lemma_pick_binding_only(a, f);
    assert(Seq::<B>::empty() + pick(seq![x], f) == pick(seq![x], f));
}

proof fn lemma_pick_tail2<B>(a: Seq<RenderStep>, x: RenderStep, y: RenderStep, f: spec_fn(RenderStep) -> Option<B>)
    requires
        forall|k: int| 0 <= k < a.len() ==> is_binding_only(#[trigger] a[k]),
        forall|z: RenderStep| is_binding_only(z) ==> (#[trigger] f(z)) is None,
    ensures
        pick(a + seq![x] + seq![y], f) == pick(seq![x], f) + pick(seq![y], f),
{
    lemma_pick_concat(a + seq![x], seq![y], f);
    lemma_pick_tail(a, x, f);
}

/// What the steps of one command contribute to the uniform offsets, the
/// draw ranges and the stencil references.
proof fn lemma_step_picks(cmds: Seq<(usize, RenderCommand)>, i: int, st: PlanState)
    requires
        0 <= i < cmds.len(),
    ensures
        pick(plan_step(cmds, i, st).1, |s: RenderStep| step_uniform_offset(s)) == (if uniforms_in(cmds[i]) is Some {
            seq![st.uniform_offset as u32]
        } else {
            Seq::<u32>::empty()
        }),
        pick(plan_step(cmds, i, st).1, |s: RenderStep| step_draw_range(s)) == pick(
            seq![cmds[i]],
            |c: (usize, RenderCommand)| cmd_draw_range(c),
        ),
        pick(plan_step(cmds, i, st).1, |s: RenderStep| step_stencil_reference(s)) == pick(
            seq![cmds[i]],
            |c: (usize, RenderCommand)| cmd_stencil_reference(c),
        ),
{
    let fu = |s: RenderStep| step_uniform_offset(s);
    let fd = |s: RenderStep| step_draw_range(s);
    let fs = |s: RenderStep| step_stencil_reference(s);
    let cd = |c: (usize, RenderCommand)| cmd_draw_range(c);
    let cs = |c: (usize, RenderCommand)| cmd_stencil_reference(c);
    let puppet_id = cmds[i].0;
    lemma_pick_single(cmds[i], cd);
    lemma_pick_single(cmds[i], cs);
    match cmds[i].1 {
        RenderCommand::BeginComposite => {
            let b = RenderStep::BeginPass { kind: PassKind::Composite, puppet_id: cmds[i + 1].0 };
            lemma_pick_single(b, fu);
            lemma_pick_single(b, fd);
            lemma_pick_single(b, fs);
        },
        RenderCommand::SetMaskingMode(mode) => {
            let (s0, pre) = open_any_pass(st, puppet_id);
            let x = RenderStep::SetStencilReference(spec_stencil_reference(mode));
            lemma_pick_tail(pre, x, fu);
            lemma_pick_tail(pre, x, fd);
            lemma_pick_tail(pre, x, fs);
            lemma_pick_single(x, fu);
            lemma_pick_single(x, fd);
            lemma_pick_single(x, fs);
        },
        RenderCommand::Draw { texture_index, index_offset, index_count, blend_mode, .. } => {
            let (s0, pre) = open_any_pass(st, puppet_id);
            let (s1, bufs) = bind_buffers(s0, puppet_id);
            let key = (blend_mode, s1.mask_mode);
            let pipe = if s1.last_pipeline == Some(key) {
                Seq::<RenderStep>::empty()
            } else {
                seq![RenderStep::SetPipeline { blend_mode, mask: spec_mask_state_of(s1.mask_mode), composite: false }]
            };
            let tex = if s1.last_texture == Some((puppet_id, texture_index)) {
                Seq::<RenderStep>::empty()
            } else {
                seq![RenderStep::SetTextureBindGroup { puppet_id, texture_index }]
            };
            let a = pre + bufs + pipe + tex;
            let s0 = s1;
            let u = RenderStep::SetUniformBindGroup { offset: s0.uniform_offset as u32 };
            let d = RenderStep::DrawIndexed { start: index_offset, end: (index_offset + index_count) as u32 };
            assert(forall|k: int| 0 <= k < a.len() ==> is_binding_only(#[trigger] a[k]));
            assert(plan_step(cmds, i, st).1 == a + seq![u] + seq![d]);
            lemma_pick_tail2(a, u, d, fu);
            lemma_pick_tail2(a, u, d, fd);
            lemma_pick_tail2(a, u, d, fs);
            lemma_pick_single(u, fu);
            lemma_pick_single(u, fd);
            lemma_pick_single(u, fs);
            lemma_pick_single(d, fu);
            lemma_pick_single(d, fd);
            lemma_pick_single(d, fs);
            assert(Seq::<u32>::empty() + Seq::<u32>::empty() == Seq::<u32>::empty());
            assert(seq![s0.uniform_offset as u32] + Seq::<u32>::empty() == seq![s0.uniform_offset as u32]);
            assert(Seq::<(u32, u32)>::empty() + seq![(index_offset, (index_offset + index_count) as u32)]
                == seq![(index_offset, (index_offset + index_count) as u32)]);
        },
        RenderCommand::EndComposite { index_offset, index_count, blend_mode, .. } => {
            let (s00, pre) = open_main_pass(st, puppet_id);
            let (s0, bufs) = bind_buffers(s00, puppet_id);
            let a = pre + bufs + seq![RenderStep::SetPipeline { blend_mode, mask: MaskState::NoMask, composite: true }]
                + seq![RenderStep::SetCompositeBindGroup];
            let u = RenderStep::SetUniformBindGroup { offset: s0.uniform_offset as u32 };
            let d = RenderStep::DrawIndexed { start: index_offset, end: (index_offset + index_count) as u32 };
            assert(forall|k: int| 0 <= k < a.len() ==> is_binding_only(#[trigger] a[k]));
            assert(plan_step(cmds, i, st).1 == a + seq![u] + seq![d]);
            lemma_pick_tail2(a, u, d, fu);
            lemma_pick_tail2(a, u, d, fd);
            lemma_pick_tail2(a, u, d, fs);
            lemma_pick_single(u, fu);
            lemma_pick_single(u, fd);
            lemma_pick_single(u, fs);
            lemma_pick_single(d, fu);
            lemma_pick_single(d, fd);
            lemma_pick_single(d, fs);
            assert(Seq::<u32>::empty() + Seq::<u32>::empty() == Seq::<u32>::empty());
            assert(seq![s0.uniform_offset as u32] + Seq::<u32>::empty() == seq![s0.uniform_offset as u32]);
            assert(Seq::<(u32, u32)>::empty() + seq![(index_offset, (index_offset + index_count) as u32)]
                == seq![(index_offset, (index_offset + index_count) as u32)]);
        },
    }
}

proof fn lemma_plan_picks(cmds: Seq<(usize, RenderCommand)>, n: nat)
    requires
        n <= cmds.len(),
    ensures
        pick(plan_prefix(cmds, n).1, |s: RenderStep| step_uniform_offset(s)) == Seq::new(
            drawing_count(cmds.take(n as int)),
            |j: int| (256 * j) as u32,
        ),
        pick(plan_prefix(cmds, n).1, |s: RenderStep| step_draw_range(s)) == pick(
            cmds.take(n as int),
            |c: (usize, RenderCommand)| cmd_draw_range(c),
        ),
        pick(plan_prefix(cmds, n).1, |s: RenderStep| step_stencil_reference(s)) == pick(
            cmds.take(n as int),
            |c: (usize, RenderCommand)| cmd_stencil_reference(c),
        ),
    decreases n,
{
    let fu = |s: RenderStep| step_uniform_offset(s);
    let fd = |s: RenderStep| step_draw_range(s);
    let fs = |s: RenderStep| step_stencil_reference(s);
    let cd = |c: (usize, RenderCommand)| cmd_draw_range(c);
    let cs = |c: (usize, RenderCommand)| cmd_stencil_reference(c);
    let fb = |c: (usize, RenderCommand)| uniforms_in(c);
    if n == 0 {
        assert(cmds.take(0) == Seq::<(usize, RenderCommand)>::empty());
        assert(Seq::new(0, |j: int| (256 * j) as u32) == Seq::<u32>::empty());
    } else {
        let m = (n - 1) as nat;
        lemma_plan_picks(cmds, m);
        lemma_offset_counts(cmds, m);
        let (st, steps) = plan_prefix(cmds, m);
        let more = plan_step(cmds, m as int, st).1;
        lemma_step_picks(cmds, m as int, st);
        lemma_pick_concat(steps, more, fu);
        lemma_pick_concat(steps, more, fd);
        lemma_pick_concat(steps, more, fs);
        lemma_pick_take_step(cmds, m as int, cd);
        lemma_pick_take_step(cmds, m as int, cs);
        lemma_pick_take_step(cmds, m as int, fb);
        lemma_pick_single(cmds[m as int], fb);
        let c = drawing_count(cmds.take(m as int));
        if uniforms_in(cmds[m as int]) is Some {
            assert(Seq::new(c, |j: int| (256 * j) as u32) + seq![st.uniform_offset as u32] == Seq::new(
                c + 1,
                |j: int| (256 * j) as u32,
            ));
        } else {
            assert(Seq::new(c, |j: int| (256 * j) as u32) + Seq::<u32>::empty() == Seq::new(
                c,
                |j: int| (256 * j) as u32,
            ));
        }
    }
}

/// Draw calls are issued in the order the drawing commands were recorded,
/// each over exactly the index range its command recorded.
pub proof fn lemma_plan_draws_recorded_ranges(cmds: Seq<(usize, RenderCommand)>)
    ensures
        pick(render_plan(cmds), |s: RenderStep| step_draw_range(s)) == pick(
            cmds,
            |c: (usize, RenderCommand)| cmd_draw_range(c),
        ),
{
    lemma_plan_picks(cmds, cmds.len());
    assert(cmds.take(cmds.len() as int) == cmds);
}

/// Every masking-mode change sets the stencil reference of its mode, in
/// the order the changes were recorded, and nothing else sets one.
pub proof fn lemma_plan_stencil_references(cmds: Seq<(usize, RenderCommand)>)
    ensures
        pick(render_plan(cmds), |s: RenderStep| step_stencil_reference(s)) == pick(
            cmds,
            |c: (usize, RenderCommand)| cmd_stencil_reference(c),
        ),
{
    lemma_plan_picks(cmds, cmds.len());
    assert(cmds.take(cmds.len() as int) == cmds);
}

/// Each draw reads its own uniforms: the `j`-th draw of the plan binds the
/// uniform buffer at offset `256 * j`, and the staging bytes that
/// `write_uniforms` lays out for the same commands hold the `j`-th drawing
/// command's uniform block at exactly that offset.
pub proof fn lemma_draws_read_their_uniforms(cmds: Seq<(usize, RenderCommand)>, j: int)
    requires
        plannable(cmds),
        0 <= j < drawing_count(cmds),
    ensures
        pick(render_plan(cmds), |s: RenderStep| step_uniform_offset(s)).len() == drawing_count(cmds),
        pick(render_plan(cmds), |s: RenderStep| step_uniform_offset(s))[j] == 256 * j,
        staging_of(uniform_blocks(cmds)).subrange(256 * j, 256 * j + UNIFORM_SIZE)
            == uniform_blocks(cmds)[j].bytes@,
{
    lemma_plan_picks(cmds, cmds.len());
    assert(cmds.take(cmds.len() as int) == cmds);
    assert(256 * j <= u32::MAX);
    lemma_block_at_slot(uniform_blocks(cmds), j);
    assert(j * 256 == 256 * j);
}

/// The pipeline bound at the end of a sequence of steps: the last one set
/// since the open pass began (none right after a pass begins).
pub open spec fn bound_pipeline(steps: Seq<RenderStep>) -> Option<(BlendMode, MaskState, bool)>
    decreases steps.len(),
{
    if steps.len() == 0 {
        None
    } else {
        match steps.last() {
            RenderStep::SetPipeline { blend_mode, mask, composite } => Some((blend_mode, mask, composite)),
            RenderStep::BeginPass { .. } => None,
            _ => bound_pipeline(steps.drop_last()),
        }
    }
}

/// The texture bound at group 0 at the end of a sequence of steps, as
/// (puppet, texture index); none right after a pass begins or after the
/// composite targets were bound there.
pub open spec fn bound_texture(steps: Seq<RenderStep>) -> Option<(usize, usize)>
    decreases steps.len(),
{
    if steps.len() == 0 {
        None
    } else {
        match steps.last() {
            RenderStep::SetTextureBindGroup { puppet_id, texture_index } => Some((puppet_id, texture_index)),
            RenderStep::BeginPass { .. } => None,
            RenderStep::SetCompositeBindGroup => None,
            _ => bound_texture(steps.drop_last()),
        }
    }
}

/// The puppet whose vertex and index buffers are bound at the end of a
/// sequence of steps.
pub open spec fn bound_buffers(steps: Seq<RenderStep>) -> Option<usize>
    decreases steps.len(),
{
    if steps.len() == 0 {
        None
    } else {
        match steps.last() {
            RenderStep::BeginPass { puppet_id, .. } => Some(puppet_id),
            RenderStep::BindBuffers { puppet_id } => Some(puppet_id),
            _ => bound_buffers(steps.drop_last()),
        }
    }
}

/// The kind of the pass open at the end of a sequence of steps: that of
/// the last pass begun.
pub open spec fn open_pass(steps: Seq<RenderStep>) -> Option<PassKind>
    decreases steps.len(),
{
    if steps.len() == 0 {
        None
    } else {
        match steps.last() {
            RenderStep::BeginPass { kind, .. } => Some(kind),
            _ => open_pass(steps.drop_last()),
        }
    }
}

/// Whether the first `n` commands leave drawing redirected into the
/// composite targets: a composite was begun and not ended since.
pub open spec fn in_composite(cmds: Seq<(usize, RenderCommand)>, n: int) -> bool
    decreases n,
{
    if n <= 0 {
        false
    } else {
        match cmds[n - 1].1 {
            RenderCommand::BeginComposite => true,
            RenderCommand::EndComposite { .. } => false,
            _ => in_composite(cmds, n - 1),
        }
    }
}

/// The masking mode in force after the first `n` commands: the last one
/// set, or no masking.
pub open spec fn mask_mode_before(cmds: Seq<(usize, RenderCommand)>, n: int) -> MaskingMode
    decreases n,
{
    if n <= 0 {
        MaskingMode::NoMask
    } else {
        match cmds[n - 1].1 {
            RenderCommand::SetMaskingMode(mode) => mode,
            _ => mask_mode_before(cmds, n - 1),
        }
    }
}

/// What the planner remembers as bound is what the steps bind.
pub open spec fn bindings_match(st: PlanState, steps: Seq<RenderStep>) -> bool {
    &&& st.last_pipeline matches Some((b, m)) ==> bound_pipeline(steps) == Some((b, spec_mask_state_of(m), false))
    &&& st.last_texture matches Some(t) ==> bound_texture(steps) == Some(t)
    &&& st.bound_buffers == bound_buffers(steps)
    &&& st.pass == open_pass(steps)
}

/// How one more step changes what is bound.
proof fn lemma_bound_push(a: Seq<RenderStep>, x: RenderStep)
    ensures
        bound_pipeline(a + seq![x]) == (match x {
            RenderStep::SetPipeline { blend_mode, mask, composite } => Some((blend_mode, mask, composite)),
            RenderStep::BeginPass { .. } => None,
            _ => bound_pipeline(a),
        }),
        bound_texture(a + seq![x]) == (match x {
            RenderStep::SetTextureBindGroup { puppet_id, texture_index } => Some((puppet_id, texture_index)),
            RenderStep::BeginPass { .. } => None,
            RenderStep::SetCompositeBindGroup => None,
            _ => bound_texture(a),
        }),
        bound_buffers(a + seq![x]) == (match x {
            RenderStep::BeginPass { puppet_id, .. } => Some(puppet_id),
            RenderStep::BindBuffers { puppet_id } => Some(puppet_id),
            _ => bound_buffers(a),
        }),
        open_pass(a + seq![x]) == (match x {
            RenderStep::BeginPass { kind, .. } => Some(kind),
            _ => open_pass(a),
        }),
{
    assert((a + seq![x]).drop_last() == a);
    assert((a + seq![x]).last() == x);
}

/// Opening a pass (of either kind) keeps the bindings in step with the state.
proof fn lemma_open_pass_bindings(st: PlanState, steps: Seq<RenderStep>, puppet_id: usize, main_only: bool)
    requires
        bindings_match(st, steps),
    ensures
        ({
            let (s0, pre) = if main_only {
                open_main_pass(st, puppet_id)
            } else {
                open_any_pass(st, puppet_id)
            };
            &&& bindings_match(s0, steps + pre)
            &&& s0.mask_mode == st.mask_mode
            &&& s0.uniform_offset == st.uniform_offset
        }),
{
    let (s0, pre) = if main_only {
        open_main_pass(st, puppet_id)
    } else {
        open_any_pass(st, puppet_id)
    };
    if pre.len() == 0 {
        assert(steps + pre == steps);
    } else {
        lemma_bound_push(steps, RenderStep::BeginPass { kind: PassKind::Main, puppet_id });
        assert(pre == seq![RenderStep::BeginPass { kind: PassKind::Main, puppet_id }]);
    }
}

/// Binding a puppet's buffers keeps the bindings in step with the state.
proof fn lemma_bind_buffers_bindings(st: PlanState, steps: Seq<RenderStep>, puppet_id: usize)
    requires
        bindings_match(st, steps),
    ensures
        ({
            let (s1, bufs) = bind_buffers(st, puppet_id);
            &&& bindings_match(s1, steps + bufs)
            &&& bound_buffers(steps + bufs) == Some(puppet_id)
            &&& s1.mask_mode == st.mask_mode
            &&& s1.uniform_offset == st.uniform_offset
            &&& s1.last_pipeline == st.last_pipeline
            &&& s1.last_texture == st.last_texture
            &&& s1.pass == st.pass
        }),
{
    let (s1, bufs) = bind_buffers(st, puppet_id);
    if st.bound_buffers == Some(puppet_id) {
        assert(steps + bufs == steps);
    } else {
        lemma_bound_push(steps, RenderStep::BindBuffers { puppet_id });
    }
}

proof fn lemma_tracking_draw(
    st: PlanState,
    steps: Seq<RenderStep>,
    p: usize,
    texture_index: usize,
    index_offset: u32,
    index_count: u32,
    blend_mode: BlendMode,
)
    requires
        bindings_match(st, steps),
    ensures
        ({
            let (s2, more) = plan_draw(st, p, texture_index, index_offset, index_count, blend_mode);
            &&& bindings_match(s2, steps + more)
            &&& bound_pipeline(steps + more) == Some((blend_mode, spec_mask_state_of(st.mask_mode), false))
            &&& bound_texture(steps + more) == Some((p, texture_index))
            &&& bound_buffers(steps + more) == Some(p)
            &&& s2.mask_mode == st.mask_mode
            &&& s2.pass == (if st.pass is None {
                Some(PassKind::Main)
            } else {
                st.pass
            })
        }),
{
    let (s0, pre) = open_any_pass(st, p);
    lemma_open_pass_bindings(st, steps, p, false);
    let (s1, bufs) = bind_buffers(s0, p);
    lemma_bind_buffers_bindings(s0, steps + pre, p);
    let key = (blend_mode, s1.mask_mode);
    let sp = RenderStep::SetPipeline { blend_mode, mask: spec_mask_state_of(s1.mask_mode), composite: false };
    let stx = RenderStep::SetTextureBindGroup { puppet_id: p, texture_index };
    let pipe = if s1.last_pipeline == Some(key) {
        Seq::<RenderStep>::empty()
    } else {
        seq![sp]
    };
    let tex = if s1.last_texture == Some((p, texture_index)) {
        Seq::<RenderStep>::empty()
    } else {
        seq![stx]
    };
    let u = RenderStep::SetUniformBindGroup { offset: s1.uniform_offset as u32 };
    let d = RenderStep::DrawIndexed { start: index_offset, end: (index_offset + index_count) as u32 };
    let a0 = steps + pre + bufs;
    let a1 = a0 + pipe;
    let a2 = a1 + tex;
    let a3 = a2 + seq![u];
    let a4 = a3 + seq![d];
    assert(steps + (pre + bufs + pipe + tex + seq![u] + seq![d]) == a4);
    assert(steps + pre + bufs == a0);
    if s1.last_pipeline == Some(key) {
        assert(a1 == a0);
    } else {
        lemma_bound_push(a0, sp);
    }
    if s1.last_texture == Some((p, texture_index)) {
        assert(a2 == a1);
    } else {
        lemma_bound_push(a1, stx);
    }
    lemma_bound_push(a2, u);
    lemma_bound_push(a3, d);
}

proof fn lemma_tracking_end_composite(
    st: PlanState,
    steps: Seq<RenderStep>,
    p: usize,
    index_offset: u32,
    index_count: u32,
    blend_mode: BlendMode,
)
    requires
        bindings_match(st, steps),
    ensures
        ({
            let (s2, more) = plan_end_composite(st, p, index_offset, index_count, blend_mode);
            let all = steps + more;
            &&& bindings_match(s2, all)
            &&& bound_pipeline(all) == Some((blend_mode, MaskState::NoMask, true))
            &&& bound_buffers(all) == Some(p)
            &&& all[all.len() - 3] == RenderStep::SetCompositeBindGroup
            &&& s2.mask_mode == st.mask_mode
            &&& s2.pass == Some(PassKind::Main)
        }),
{
    let (s0, pre) = open_main_pass(st, p);
    lemma_open_pass_bindings(st, steps, p, true);
    let (s1, bufs) = bind_buffers(s0, p);
    lemma_bind_buffers_bindings(s0, steps + pre, p);
    let x = RenderStep::SetPipeline { blend_mode, mask: MaskState::NoMask, composite: true };
    let c = RenderStep::SetCompositeBindGroup;
    let u = RenderStep::SetUniformBindGroup { offset: s1.uniform_offset as u32 };
    let d = RenderStep::DrawIndexed { start: index_offset, end: (index_offset + index_count) as u32 };
    let a0 = steps + pre + bufs;
    let a1 = a0 + seq![x];
    let a2 = a1 + seq![c];
    let a3 = a2 + seq![u];
    let a4 = a3 + seq![d];
    assert(steps + (pre + bufs + seq![x] + seq![c] + seq![u] + seq![d]) == a4);
    lemma_bound_push(a0, x);
    lemma_bound_push(a1, c);
    lemma_bound_push(a2, u);
    lemma_bound_push(a3, d);
    assert(a4[a4.len() - 3] == c);
}

proof fn lemma_tracking_set_mask(st: PlanState, steps: Seq<RenderStep>, p: usize, mode: MaskingMode)
    requires
        bindings_match(st, steps),
    ensures
        bindings_match(plan_set_mask(st, p, mode).0, steps + plan_set_mask(st, p, mode).1),
        plan_set_mask(st, p, mode).0.mask_mode == mode,
        plan_set_mask(st, p, mode).0.pass == (if st.pass is None {
            Some(PassKind::Main)
        } else {
            st.pass
        }),
{
    let (s0, pre) = open_any_pass(st, p);
    lemma_open_pass_bindings(st, steps, p, false);
    let x = RenderStep::SetStencilReference(spec_stencil_reference(mode));
    assert(steps + (pre + seq![x]) == (steps + pre) + seq![x]);
    lemma_bound_push(steps + pre, x);
}

/// What the planner remembers as bound is what the steps so far bind.
proof fn lemma_tracking_matches_bindings(cmds: Seq<(usize, RenderCommand)>, n: nat)
    requires
        n <= cmds.len(),
    ensures
        bindings_match(plan_prefix(cmds, n).0, plan_prefix(cmds, n).1),
        plan_prefix(cmds, n).0.mask_mode == mask_mode_before(cmds, n as int),
        in_composite(cmds, n as int) <==> plan_prefix(cmds, n).0.pass == Some(PassKind::Composite),
    decreases n,
{
    if n > 0 {
        let m = (n - 1) as nat;
        lemma_tracking_matches_bindings(cmds, m);
        let (st, steps) = plan_prefix(cmds, m);
        let p = cmds[m as int].0;
        match cmds[m as int].1 {
            RenderCommand::BeginComposite => {
                lemma_bound_push(steps, RenderStep::BeginPass { kind: PassKind::Composite, puppet_id: cmds[n as int].0 });
            },
            RenderCommand::SetMaskingMode(mode) => {
                lemma_tracking_set_mask(st, steps, p, mode);
            },
            RenderCommand::Draw { texture_index, index_offset, index_count, blend_mode, .. } => {
                lemma_tracking_draw(st, steps, p, texture_index, index_offset, index_count, blend_mode);
            },
            RenderCommand::EndComposite { index_offset, index_count, blend_mode, .. } => {
                lemma_tracking_end_composite(st, steps, p, index_offset, index_count, blend_mode);
            },
        }
    }
}

/// State tracking only skips bindings that are already in place, whatever
/// puppets the commands come from: every mesh of a puppet is drawn with
/// that puppet's vertex and index buffers, that puppet's texture, and the
/// pipeline of its blend mode and of the masking mode last set; every
/// composite result of a puppet is drawn from that puppet's buffers with
/// the unmasked composite pipeline of its blend mode and the composite
/// targets bound.
pub proof fn lemma_draws_have_their_bindings(cmds: Seq<(usize, RenderCommand)>, i: int)
    requires
        0 <= i < cmds.len(),
    ensures
        ({
            let steps = plan_prefix(cmds, (i + 1) as nat).1;
            let p = cmds[i].0;
            &&& cmds[i].1 matches RenderCommand::Draw { texture_index, blend_mode, .. } ==> {
                &&& bound_buffers(steps) == Some(p)
                &&& bound_texture(steps) == Some((p, texture_index))
                &&& bound_pipeline(steps) == Some(
                    (blend_mode, spec_mask_state_of(mask_mode_before(cmds, i)), false),
                )
            }
            &&& cmds[i].1 matches RenderCommand::EndComposite { blend_mode, .. } ==> {
                &&& bound_buffers(steps) == Some(p)
                &&& bound_pipeline(steps) == Some((blend_mode, MaskState::NoMask, true))
                &&& steps[steps.len() - 3] == RenderStep::SetCompositeBindGroup
            }
        }),
{
    lemma_tracking_matches_bindings(cmds, i as nat);
    let (st, steps) = plan_prefix(cmds, i as nat);
    let p = cmds[i].0;
    match cmds[i].1 {
        RenderCommand::Draw { texture_index, index_offset, index_count, blend_mode, .. } => {
            lemma_tracking_draw(st, steps, p, texture_index, index_offset, index_count, blend_mode);
        },
        RenderCommand::EndComposite { index_offset, index_count, blend_mode, .. } => {
            lemma_tracking_end_composite(st, steps, p, index_offset, index_count, blend_mode);
        },
        _ => {},
    }
}

/// Every command draws into the target it was recorded for: a mesh drawn
/// after a composite was begun and before it was ended is drawn in a
/// composite pass, any other mesh in a main pass onto the frame, and every
/// composite result in a main pass.
pub proof fn lemma_draws_land_in_their_pass(cmds: Seq<(usize, RenderCommand)>, i: int)
    requires
        0 <= i < cmds.len(),
    ensures
        ({
            let steps = plan_prefix(cmds, (i + 1) as nat).1;
            &&& cmds[i].1 is Draw ==> open_pass(steps) == Some(
                if in_composite(cmds, i) {
                    PassKind::Composite
                } else {
                    PassKind::Main
                },
            )
            &&& cmds[i].1 is EndComposite ==> open_pass(steps) == Some(PassKind::Main)
        }),
{
    lemma_tracking_matches_bindings(cmds, i as nat);
    lemma_tracking_matches_bindings(cmds, (i + 1) as nat);
    let (st, steps) = plan_prefix(cmds, i as nat);
    let p = cmds[i].0;
    match cmds[i].1 {
        RenderCommand::Draw { texture_index, index_offset, index_count, blend_mode, .. } => {
            lemma_tracking_draw(st, steps, p, texture_index, index_offset, index_count, blend_mode);
        },
        RenderCommand::EndComposite { index_offset, index_count, blend_mode, .. } => {
            lemma_tracking_end_composite(st, steps, p, index_offset, index_count, blend_mode);
        },
        _ => {},
    }
}

} // verus!
