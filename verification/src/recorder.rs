//! Recording the draw stream of a puppet.
//!
//! While a puppet is drawn, the recorder receives the masking, composite and
//! mesh events of the draw stream and records, for each, the commands that
//! the frame will execute later. It keeps a stack of masking modes so that
//! the mode in force before a mask or composite group is restored after it,
//! a counter that gives each mask group its own stencil value, and the stack
//! of alpha thresholds of the masks being drawn. Alpha thresholds and
//! opacities are carried by their IEEE-754 bit patterns.

use vstd::prelude::*;
use crate::cmd::{BlendMode, MaskingMode, RenderCommand, UniformBlock};
use crate::buffers::BufferManager;

verus! {

/// Abstract state of a recorder.
pub ghost struct RecorderState {
    /// The recorded commands, each with the puppet it belongs to.
    pub commands: Seq<(usize, RenderCommand)>,
    pub masking_stack: Seq<MaskingMode>,
    pub current_mode: MaskingMode,
    /// Alpha thresholds of the masks being drawn (bit patterns).
    pub thresholds: Seq<u32>,
    pub mask_counter: u8,
    /// The puppet being drawn.
    pub puppet: Option<usize>,
}

/// The stencil value of the mask group after the one that used `counter`.
/// Values run 1, 2, ..., 255 and then start again at 1: 0 is the value of
/// the cleared stencil buffer (and of unmasked drawing), so no mask uses it.
pub open spec fn next_mask_value(counter: u8) -> u8 {
    if counter == 255 {
        1
    } else {
        (counter + 1) as u8
    }
}

impl RecorderState {
    /// The current masking mode is the top of the masking stack.
    pub open spec fn consistent(self) -> bool {
        self.masking_stack.len() > 0 ==> self.current_mode == self.masking_stack.last()
    }

    /// The state at the start of a frame.
    pub open spec fn prepared(self) -> RecorderState {
        RecorderState {
            commands: Seq::empty(),
            masking_stack: seq![MaskingMode::NoMask],
            current_mode: MaskingMode::NoMask,
            thresholds: Seq::empty(),
            mask_counter: 0,
            puppet: self.puppet,
        }
    }

    pub open spec fn drawing_puppet(self, puppet_id: usize) -> RecorderState {
        RecorderState { puppet: Some(puppet_id), ..self }
    }

    /// Records a switch to `mode`.
    pub open spec fn switched_to(self, mode: MaskingMode) -> RecorderState {
        RecorderState {
            commands: self.commands.push((self.puppet->0, RenderCommand::SetMaskingMode(mode))),
            current_mode: mode,
            ..self
        }
    }

    /// A new mask group: the next stencil value is written.
    pub open spec fn after_begin_masks(self, threshold: u32) -> RecorderState {
        let id = next_mask_value(self.mask_counter);
        let mode = MaskingMode::WriteMask(id);
        RecorderState {
            masking_stack: self.masking_stack.push(mode),
            thresholds: self.thresholds.push(threshold),
            mask_counter: id,
            ..self.switched_to(mode)
        }
    }

    /// Leaves a mask or composite group: the mode below it is restored.
    pub open spec fn after_leaving_group(self) -> RecorderState {
        let stack = if self.masking_stack.len() > 0 {
            self.masking_stack.drop_last()
        } else {
            self.masking_stack
        };
        let popped = RecorderState { masking_stack: stack, ..self };
        if stack.len() > 0 {
            popped.switched_to(stack.last())
        } else {
            popped
        }
    }

    /// The masked content of the current mask group follows: it is drawn
    /// where the stencil holds the group's value; the group's threshold is
    /// no longer needed.
    pub open spec fn after_begin_masked_content(self) -> RecorderState {
        let mode = MaskingMode::ReadMask(self.mask_counter);
        let s = self.switched_to(mode);
        RecorderState {
            masking_stack: if self.masking_stack.len() > 0 {
                self.masking_stack.update(self.masking_stack.len() - 1, mode)
            } else {
                self.masking_stack
            },
            thresholds: if self.thresholds.len() > 0 {
                self.thresholds.drop_last()
            } else {
                self.thresholds
            },
            ..s
        }
    }

    /// A composite group begins; the current mode is kept for after it.
    pub open spec fn after_begin_composite(self) -> RecorderState {
        RecorderState {
            masking_stack: self.masking_stack.push(self.current_mode),
            commands: self.commands.push((self.puppet->0, RenderCommand::BeginComposite)),
            ..self
        }
    }

    /// A composite group ends and its result is drawn.
    pub open spec fn after_finish_composite(
        self,
        index_offset: u32,
        index_count: u32,
        blend_mode: BlendMode,
        opacity: u32,
        uniforms: UniformBlock,
    ) -> RecorderState {
        let s = self.after_leaving_group();
        RecorderState {
            commands: s.commands.push(
                (
                    self.puppet->0,
                    RenderCommand::EndComposite { index_offset, index_count, blend_mode, opacity, uniforms },
                ),
            ),
            ..s
        }
    }

    /// A textured mesh is drawn; empty meshes record nothing.
    pub open spec fn after_draw(
        self,
        texture_index: usize,
        index_offset: u32,
        index_count: u32,
        blend_mode: BlendMode,
        opacity: u32,
        uniforms: UniformBlock,
    ) -> RecorderState {
        if index_count == 0 {
            self
        } else {
            RecorderState {
                commands: self.commands.push(
                    (
                        self.puppet->0,
                        RenderCommand::Draw {
                            texture_index,
                            index_offset,
                            index_count,
                            blend_mode,
                            opacity,
                            uniforms,
                        },
                    ),
                ),
                ..self
            }
        }
    }

    /// The alpha threshold for a mesh drawn now: the threshold of the
    /// innermost mask being drawn when drawing a mask, zero otherwise.
    pub open spec fn alpha_threshold(self, as_mask: bool) -> u32 {
        if as_mask && self.thresholds.len() > 0 {
            self.thresholds.last()
        } else {
            0
        }
    }
}

/// Records the draw stream of the puppets of a frame.
pub struct RenderRecorder {
    command_buffer: Vec<(usize, RenderCommand)>,
    masking_stack: Vec<MaskingMode>,
    current_masking_mode: MaskingMode,
    mask_threshold_stack: Vec<u32>,
    mask_counter: u8,
    current_puppet_id: Option<usize>,
}

impl View for RenderRecorder {
    type V = RecorderState;

    closed spec fn view(&self) -> RecorderState {
        RecorderState {
            commands: self.command_buffer@,
            masking_stack: self.masking_stack@,
            current_mode: self.current_masking_mode,
            thresholds: self.mask_threshold_stack@,
            mask_counter: self.mask_counter,
            puppet: self.current_puppet_id,
        }
    }
}

impl RenderRecorder {
    /// A recorder at the start of a frame, with no puppet being drawn.
    pub fn new() -> (r: Self)
        ensures
            r@.puppet is None,
            r@ == r@.prepared(),
    {
        let r = RenderRecorder {
            command_buffer: Vec::new(),
            masking_stack: vec![MaskingMode::NoMask],
            current_masking_mode: MaskingMode::NoMask,
            mask_threshold_stack: Vec::new(),
            mask_counter: 0,
            current_puppet_id: None,
        };
        assert(r@.masking_stack == seq![MaskingMode::NoMask]);
        r
    }

    /// Clears previous commands and masking state; called at the start of
    /// each frame.
    pub fn prepare(&mut self)
        ensures
            final(self)@ == old(self)@.prepared(),
    {
        self.command_buffer.clear();
        self.masking_stack = vec![MaskingMode::NoMask];
        self.current_masking_mode = MaskingMode::NoMask;
        self.mask_threshold_stack.clear();
        self.mask_counter = 0;
        assert(self@.masking_stack == seq![MaskingMode::NoMask]);
    }

    /// Subsequent events belong to the given puppet.
    pub fn begin_puppet(&mut self, puppet_id: usize)
        ensures
            final(self)@ == old(self)@.drawing_puppet(puppet_id),
    {
        self.current_puppet_id = Some(puppet_id);
    }

    pub fn current_puppet_id(&self) -> (p: Option<usize>)
        ensures
            p == self@.puppet,
    {
        self.current_puppet_id
    }

    pub fn commands(&self) -> (c: &[(usize, RenderCommand)])
        ensures
            c@ == self@.commands,
    {
        self.command_buffer.as_slice()
    }

    pub fn current_masking_mode(&self) -> (m: MaskingMode)
        ensures
            m == self@.current_mode,
    {
        self.current_masking_mode
    }

    pub fn masking_stack(&self) -> (s: &[MaskingMode])
        ensures
            s@ == self@.masking_stack,
    {
        self.masking_stack.as_slice()
    }

    pub fn mask_counter(&self) -> (c: u8)
        ensures
            c == self@.mask_counter,
    {
        self.mask_counter
    }

    pub fn mask_thresholds(&self) -> (t: &[u32])
        ensures
            t@ == self@.thresholds,
    {
        self.mask_threshold_stack.as_slice()
    }

    fn switch_to(&mut self, mode: MaskingMode)
        requires
            old(self)@.puppet is Some,
        ensures
            final(self)@ == old(self)@.switched_to(mode),
    {
        let puppet_id = match self.current_puppet_id {
            Some(p) => p,
            None => 0,
        };
        self.command_buffer.push((puppet_id, RenderCommand::SetMaskingMode(mode)));
        self.current_masking_mode = mode;
    }

    /// A mask group begins: its shapes are drawn into the stencil buffer
    /// with a fresh stencil value, using the given alpha threshold.
    pub fn on_begin_masks(&mut self, threshold: u32)
        requires
            old(self)@.puppet is Some,
        ensures
            final(self)@ == old(self)@.after_begin_masks(threshold),
    {
        self.mask_counter = if self.mask_counter == 255 {
            1
        } else {
            self.mask_counter + 1
        };
        let mode = MaskingMode::WriteMask(self.mask_counter);
        self.switch_to(mode);
        self.masking_stack.push(mode);
        self.mask_threshold_stack.push(threshold);
    }

    /// Leaves the innermost mask or composite group, restoring the masking
    /// mode below it.
    fn leave_group(&mut self)
        requires
            old(self)@.masking_stack.len() > 1 ==> old(self)@.puppet is Some,
        ensures
            final(self)@ == old(self)@.after_leaving_group(),
    {
        self.masking_stack.pop();
        let n = self.masking_stack.len();
        if n > 0 {
            let mode = self.masking_stack[n - 1];
            self.switch_to(mode);
        }
    }

    /// A mask has been drawn; the mode in force before its group returns.
    pub fn on_end_mask(&mut self)
        requires
            old(self)@.masking_stack.len() > 1 ==> old(self)@.puppet is Some,
        ensures
            final(self)@ == old(self)@.after_leaving_group(),
    {
        self.leave_group();
    }

    /// The content clipped by the current mask group follows.
    pub fn on_begin_masked_content(&mut self)
        requires
            old(self)@.puppet is Some,
        ensures
            final(self)@ == old(self)@.after_begin_masked_content(),
    {
        let mode = MaskingMode::ReadMask(self.mask_counter);
        self.switch_to(mode);
        let n = self.masking_stack.len();
        if n > 0 {
            self.masking_stack.set(n - 1, mode);
        }
        self.mask_threshold_stack.pop();
    }

    /// A composite group begins; its children are drawn into the composite
    /// targets.
    pub fn begin_composite_content(&mut self)
        requires
            old(self)@.puppet is Some,
        ensures
            final(self)@ == old(self)@.after_begin_composite(),
    {
        let mode = self.current_masking_mode;
        self.masking_stack.push(mode);
        let puppet_id = match self.current_puppet_id {
            Some(p) => p,
            None => 0,
        };
        self.command_buffer.push((puppet_id, RenderCommand::BeginComposite));
    }

    /// A composite group ends: the masking mode before it returns and the
    /// composite result is drawn with the index range of the composite quad
    /// in `buffers`, the buffers of the puppet being drawn.
    pub fn finish_composite_content(
        &mut self,
        buffers: &BufferManager,
        blend_mode: BlendMode,
        opacity: u32,
        uniforms: UniformBlock,
    )
        requires
            old(self)@.puppet is Some,
        ensures
            final(self)@ == old(self)@.after_finish_composite(
                buffers@.composite_index_offset,
                buffers@.composite_index_count,
                blend_mode,
                opacity,
                uniforms,
            ),
            final(self)@.commands.last() == (
                old(self)@.puppet->0,
                RenderCommand::EndComposite {
                    index_offset: buffers@.composite_index_offset,
                    index_count: buffers@.composite_index_count,
                    blend_mode,
                    opacity,
                    uniforms,
                },
            ),
    {
        let index_offset = buffers.composite_index_offset();
        let index_count = buffers.composite_index_count();
        let puppet_id = match self.current_puppet_id {
            Some(p) => p,
            None => 0,
        };
        self.leave_group();
        self.command_buffer.push(
            (puppet_id, RenderCommand::EndComposite { index_offset, index_count, blend_mode, opacity, uniforms }),
        );
    }

    /// The alpha threshold for a mesh drawn now.
    pub fn alpha_threshold(&self, as_mask: bool) -> (t: u32)
        ensures
            t == self@.alpha_threshold(as_mask),
    {
        let n = self.mask_threshold_stack.len();
        if as_mask && n > 0 {
            self.mask_threshold_stack[n - 1]
        } else {
            0
        }
    }

    /// A textured mesh is drawn over the given range of the index buffer.
    pub fn draw_textured_mesh_content(
        &mut self,
        texture_index: usize,
        index_offset: u32,
        index_count: u32,
        blend_mode: BlendMode,
        opacity: u32,
        uniforms: UniformBlock,
    )
        requires
            index_count != 0 ==> old(self)@.puppet is Some,
        ensures
            final(self)@ == old(self)@.after_draw(
                texture_index,
                index_offset,
                index_count,
                blend_mode,
                opacity,
                uniforms,
            ),
    {
        if index_count == 0 {
            return;
        }
        let puppet_id = match self.current_puppet_id {
            Some(p) => p,
            None => 0,
        };
        self.command_buffer.push(
            (
                puppet_id,
                RenderCommand::Draw { texture_index, index_offset, index_count, blend_mode, opacity, uniforms },
            ),
        );
    }
}

/// One event of a puppet's draw stream, as the recorder receives it.
pub ghost enum RecorderEvent {
    BeginPuppet(usize),
    BeginMasks(u32),
    EndMask,
    BeginMaskedContent,
    BeginComposite,
    FinishComposite(u32, u32, BlendMode, u32, UniformBlock),
    Draw(usize, u32, u32, BlendMode, u32, UniformBlock),
}

impl RecorderState {
    /// The state after one event.
    pub open spec fn apply(self, e: RecorderEvent) -> RecorderState {
        match e {
            RecorderEvent::BeginPuppet(p) => self.drawing_puppet(p),
            RecorderEvent::BeginMasks(t) => self.after_begin_masks(t),
            RecorderEvent::EndMask => self.after_leaving_group(),
            RecorderEvent::BeginMaskedContent => self.after_begin_masked_content(),
            RecorderEvent::BeginComposite => self.after_begin_composite(),
            RecorderEvent::FinishComposite(o, c, b, op, u) => self.after_finish_composite(o, c, b, op, u),
            RecorderEvent::Draw(t, o, c, b, op, u) => self.after_draw(t, o, c, b, op, u),
        }
    }

    /// The state after a sequence of events.
    pub open spec fn replay(self, evs: Seq<RecorderEvent>) -> RecorderState
        decreases evs.len(),
    {
        if evs.len() == 0 {
            self
        } else {
            self.replay(evs.drop_last()).apply(evs.last())
        }
    }
}

/// Number of mask groups begun by a sequence of events.
pub open spec fn mask_groups(evs: Seq<RecorderEvent>) -> nat
    decreases evs.len(),
{
    if evs.len() == 0 {
        0
    } else {
        mask_groups(evs.drop_last()) + if evs.last() is BeginMasks {
            1nat
        } else {
            0nat
        }
    }
}

/// Every event keeps the current masking mode equal to the top of the
/// masking stack.
pub proof fn lemma_event_keeps_consistency(s: RecorderState, e: RecorderEvent)
    requires
        s.consistent(),
    ensures
        s.apply(e).consistent(),
{
    match e {
        RecorderEvent::BeginMaskedContent => {
            let mode = MaskingMode::ReadMask(s.mask_counter);
            if s.masking_stack.len() > 0 {
                assert(s.apply(e).masking_stack.last() == mode);
            }
        },
        RecorderEvent::BeginMasks(t) => {
            let id = next_mask_value(s.mask_counter);
            assert(s.apply(e).masking_stack.last() == MaskingMode::WriteMask(id));
        },
        _ => {},
    }
}

/// Starting from a fresh frame (or any consistent state), the current
/// masking mode is always the top of the masking stack.
pub proof fn lemma_replay_keeps_consistency(s: RecorderState, evs: Seq<RecorderEvent>)
    requires
        s.consistent(),
    ensures
        s.replay(evs).consistent(),
    decreases evs.len(),
{
    if evs.len() > 0 {
        lemma_replay_keeps_consistency(s, evs.drop_last());
        lemma_event_keeps_consistency(s.replay(evs.drop_last()), evs.last());
    }
}

/// A fresh frame is consistent.
pub proof fn lemma_prepared_is_consistent(s: RecorderState)
    ensures
        s.prepared().consistent(),
{
}

/// Until it would pass 255, the mask counter counts the mask groups begun.
pub proof fn lemma_mask_counter_counts(s: RecorderState, evs: Seq<RecorderEvent>)
    requires
        s.mask_counter + mask_groups(evs) <= 255,
    ensures
        s.replay(evs).mask_counter == s.mask_counter + mask_groups(evs),
    decreases evs.len(),
{
    if evs.len() > 0 {
        lemma_mask_counter_counts(s, evs.drop_last());
    }
}

/// Within a frame, the `k`-th mask group writes stencil value `k`, for the
/// first 255 groups: each of them gets a value of its own.
pub proof fn lemma_mask_values_are_fresh(s: RecorderState, evs: Seq<RecorderEvent>, threshold: u32)
    requires
        mask_groups(evs) < 255,
    ensures
        s.prepared().replay(evs).after_begin_masks(threshold).current_mode == MaskingMode::WriteMask(
            (mask_groups(evs) + 1) as u8,
        ),
{
    lemma_mask_counter_counts(s.prepared(), evs);
}

/// Nothing writes stencil value 0: no recorded command, stacked mode or
/// current mode is `WriteMask(0)`.
pub open spec fn never_writes_zero(s: RecorderState) -> bool {
    &&& forall|k: int|
        0 <= k < s.commands.len() ==> (#[trigger] s.commands[k]).1 != RenderCommand::SetMaskingMode(
            MaskingMode::WriteMask(0),
        )
    &&& forall|k: int| 0 <= k < s.masking_stack.len() ==> #[trigger] s.masking_stack[k] != MaskingMode::WriteMask(0)
    &&& s.current_mode != MaskingMode::WriteMask(0)
}

proof fn lemma_event_never_writes_zero(s: RecorderState, e: RecorderEvent)
    requires
        never_writes_zero(s),
    ensures
        never_writes_zero(s.apply(e)),
{
    let r = s.apply(e);
    match e {
        RecorderEvent::EndMask => {
            if s.masking_stack.len() > 1 {
                assert(s.masking_stack.drop_last().last() == s.masking_stack[s.masking_stack.len() - 2]);
            }
        },
        RecorderEvent::FinishComposite(..) => {
            if s.masking_stack.len() > 1 {
                assert(s.masking_stack.drop_last().last() == s.masking_stack[s.masking_stack.len() - 2]);
            }
        },
        _ => {},
    }
    assert forall|k: int| 0 <= k < r.commands.len() implies (#[trigger] r.commands[k]).1
        != RenderCommand::SetMaskingMode(MaskingMode::WriteMask(0)) by {
        if k < s.commands.len() {
            assert(r.commands[k] == s.commands[k]) by {
                match e {
                    RecorderEvent::FinishComposite(..) => {
                        let t = s.after_leaving_group();
                        assert(t.commands.subrange(0, s.commands.len() as int) == s.commands);
                        assert(r.commands[k] == t.commands[k]);
                    },
                    _ => {},
                }
            }
        }
    }
}

/// No mask, in any frame, ever writes stencil value 0, the value of the
/// cleared stencil buffer: the recorder never records `WriteMask(0)`.
pub proof fn lemma_never_writes_zero(s: RecorderState, evs: Seq<RecorderEvent>)
    ensures
        never_writes_zero(s.prepared().replay(evs)),
    decreases evs.len(),
{
    if evs.len() > 0 {
        lemma_never_writes_zero(s, evs.drop_last());
        lemma_event_never_writes_zero(s.prepared().replay(evs.drop_last()), evs.last());
    }
}

/// How an event changes the depth of the masking stack.
pub open spec fn stack_effect(e: RecorderEvent) -> int {
    match e {
        RecorderEvent::BeginMasks(_) => 1,
        RecorderEvent::BeginComposite => 1,
        RecorderEvent::EndMask => -1,
        RecorderEvent::FinishComposite(..) => -1,
        _ => 0,
    }
}

/// How an event changes the depth of the threshold stack.
pub open spec fn threshold_effect(e: RecorderEvent) -> int {
    match e {
        RecorderEvent::BeginMasks(_) => 1,
        RecorderEvent::BeginMaskedContent => -1,
        _ => 0,
    }
}

/// Net change of the masking-stack depth over a sequence of events.
pub open spec fn stack_depth(evs: Seq<RecorderEvent>) -> int
    decreases evs.len(),
{
    if evs.len() == 0 {
        0
    } else {
        stack_depth(evs.drop_last()) + stack_effect(evs.last())
    }
}

/// Net change of the threshold-stack depth over a sequence of events.
pub open spec fn threshold_depth(evs: Seq<RecorderEvent>) -> int
    decreases evs.len(),
{
    if evs.len() == 0 {
        0
    } else {
        threshold_depth(evs.drop_last()) + threshold_effect(evs.last())
    }
}

/// Whether event `e` may follow events that opened `d` groups and pushed
/// `t` thresholds: groups and masked content only close what the sequence
/// itself opened, and the puppet does not change.
pub open spec fn may_follow(e: RecorderEvent, d: int, t: int) -> bool {
    match e {
        RecorderEvent::BeginPuppet(_) => false,
        RecorderEvent::EndMask => d >= 1,
        RecorderEvent::FinishComposite(..) => d >= 1,
        RecorderEvent::BeginMaskedContent => d >= 1 && t >= 1,
        _ => true,
    }
}

/// Every event of the sequence may follow the ones before it.
pub open spec fn nested(evs: Seq<RecorderEvent>) -> bool
    decreases evs.len(),
{
    evs.len() == 0 || (nested(evs.drop_last()) && may_follow(
        evs.last(),
        stack_depth(evs.drop_last()),
        threshold_depth(evs.drop_last()),
    ))
}

/// A well-nested sequence of events: draws, and mask and composite groups
/// (with anything well-nested inside them), each of them closed.
pub open spec fn balanced(evs: Seq<RecorderEvent>) -> bool {
    &&& nested(evs)
    &&& stack_depth(evs) == 0
    &&& threshold_depth(evs) == 0
}

/// Replaying two sequences one after the other.
pub proof fn lemma_replay_concat(s: RecorderState, a: Seq<RecorderEvent>, b: Seq<RecorderEvent>)
    ensures
        s.replay(a + b) == s.replay(a).replay(b),
    decreases b.len(),
{
    if b.len() == 0 {
        assert(a + b == a);
    } else {
        assert((a + b).drop_last() == a + b.drop_last());
        assert((a + b).last() == b.last());
        lemma_replay_concat(s, a, b.drop_last());
    }
}

/// Replaying one event.
proof fn lemma_replay_one(s: RecorderState, e: RecorderEvent)
    ensures
        s.replay(seq![e]) == s.apply(e),
{
    assert(seq![e].drop_last() == Seq::<RecorderEvent>::empty());
    assert(seq![e].last() == e);
    assert(s.replay(Seq::<RecorderEvent>::empty()) == s);
}

/// A nested sequence leaves the masking stack and the threshold stack below
/// what it opened untouched, records only after what was recorded before,
/// and keeps the puppet.
proof fn lemma_nested_keeps_below(s: RecorderState, evs: Seq<RecorderEvent>)
    requires
        nested(evs),
    ensures
        ({
            let r = s.replay(evs);
            &&& stack_depth(evs) >= 0
            &&& threshold_depth(evs) >= 0
            &&& r.masking_stack.len() == s.masking_stack.len() + stack_depth(evs)
            &&& r.masking_stack.subrange(0, s.masking_stack.len() as int) == s.masking_stack
            &&& r.thresholds.len() == s.thresholds.len() + threshold_depth(evs)
            &&& r.thresholds.subrange(0, s.thresholds.len() as int) == s.thresholds
            &&& r.commands.len() >= s.commands.len()
            &&& r.commands.subrange(0, s.commands.len() as int) == s.commands
            &&& r.puppet == s.puppet
        }),
    decreases evs.len(),
{
    if evs.len() > 0 {
        let prev = evs.drop_last();
        lemma_nested_keeps_below(s, prev);
        let q = s.replay(prev);
        let r = s.replay(evs);
        let n = s.masking_stack.len() as int;
        let m = s.thresholds.len() as int;
        let c = s.commands.len() as int;
        assert(r == q.apply(evs.last()));
        match evs.last() {
            RecorderEvent::BeginMasks(t) => {
                assert(r.masking_stack == q.masking_stack.push(MaskingMode::WriteMask(next_mask_value(q.mask_counter))));
                assert(r.masking_stack.subrange(0, n) == q.masking_stack.subrange(0, n));
                assert(r.thresholds.subrange(0, m) == q.thresholds.subrange(0, m));
                assert(r.commands.subrange(0, c) == q.commands.subrange(0, c));
            },
            RecorderEvent::BeginComposite => {
                assert(r.masking_stack.subrange(0, n) == q.masking_stack.subrange(0, n));
                assert(r.commands.subrange(0, c) == q.commands.subrange(0, c));
            },
            RecorderEvent::EndMask => {
                let t = q.after_leaving_group();
                assert(t.masking_stack == q.masking_stack.drop_last());
                assert(r.masking_stack.subrange(0, n) == q.masking_stack.subrange(0, n));
                assert(r.commands.subrange(0, c) == q.commands.subrange(0, c));
            },
            RecorderEvent::FinishComposite(..) => {
                let t = q.after_leaving_group();
                assert(t.masking_stack == q.masking_stack.drop_last());
                assert(r.masking_stack.subrange(0, n) == q.masking_stack.subrange(0, n));
                assert(t.commands.subrange(0, c) == q.commands.subrange(0, c));
                assert(r.commands.subrange(0, c) == q.commands.subrange(0, c));
            },
            RecorderEvent::BeginMaskedContent => {
                assert(r.masking_stack.subrange(0, n) == q.masking_stack.subrange(0, n));
                assert(r.thresholds.subrange(0, m) == q.thresholds.subrange(0, m));
                assert(r.commands.subrange(0, c) == q.commands.subrange(0, c));
            },
            RecorderEvent::Draw(..) => {
                assert(r.commands.subrange(0, c) == q.commands.subrange(0, c));
            },
            RecorderEvent::BeginPuppet(_) => {},
        }
    }
}

/// Whatever happens inside a well-nested sequence of events, the masking
/// stack, the current masking mode and the threshold stack are as before.
pub proof fn lemma_balanced_restores(s: RecorderState, evs: Seq<RecorderEvent>)
    requires
        s.consistent(),
        s.masking_stack.len() > 0,
        balanced(evs),
    ensures
        s.replay(evs).masking_stack == s.masking_stack,
        s.replay(evs).current_mode == s.current_mode,
        s.replay(evs).thresholds == s.thresholds,
        s.replay(evs).puppet == s.puppet,
        s.replay(evs).commands.subrange(0, s.commands.len() as int) == s.commands,
        s.replay(evs).commands.len() >= s.commands.len(),
{
    lemma_nested_keeps_below(s, evs);
    lemma_replay_keeps_consistency(s, evs);
    let r = s.replay(evs);
    assert(r.masking_stack == r.masking_stack.subrange(0, s.masking_stack.len() as int));
    assert(r.thresholds == r.thresholds.subrange(0, s.thresholds.len() as int));
}

/// A mask group undoes itself, whatever it draws inside: after beginning a
/// mask, drawing the mask (with anything well-nested inside), switching to
/// the masked content, drawing it (with anything well-nested inside) and
/// ending the mask, the masking stack, the current mode and the threshold
/// stack are as before, and the last command recorded switches back to the
/// mode in force before the group, so later draws use it.
pub proof fn lemma_mask_group_restores(
    s: RecorderState,
    threshold: u32,
    mask_content: Seq<RecorderEvent>,
    masked_content: Seq<RecorderEvent>,
)
    requires
        s.consistent(),
        s.masking_stack.len() > 0,
        s.puppet is Some,
        balanced(mask_content),
        balanced(masked_content),
    ensures
        ({
            let r = s.replay(
                seq![RecorderEvent::BeginMasks(threshold)] + mask_content + seq![RecorderEvent::BeginMaskedContent]
                    + masked_content + seq![RecorderEvent::EndMask],
            );
            &&& r.masking_stack == s.masking_stack
            &&& r.current_mode == s.current_mode
            &&& r.thresholds == s.thresholds
            &&& r.commands.subrange(0, s.commands.len() + 1int) == s.commands.push(
                (s.puppet->0, RenderCommand::SetMaskingMode(MaskingMode::WriteMask(next_mask_value(s.mask_counter)))),
            )
            &&& r.commands.last() == (s.puppet->0, RenderCommand::SetMaskingMode(s.current_mode))
        }),
{
    let b = seq![RecorderEvent::BeginMasks(threshold)];
    let mc = seq![RecorderEvent::BeginMaskedContent];
    let e = seq![RecorderEvent::EndMask];
    let s1 = s.replay(b);
    lemma_replay_one(s, RecorderEvent::BeginMasks(threshold));
    lemma_event_keeps_consistency(s, RecorderEvent::BeginMasks(threshold));
    let s2 = s1.replay(mask_content);
    lemma_balanced_restores(s1, mask_content);
    let s3 = s2.replay(mc);
    lemma_replay_one(s2, RecorderEvent::BeginMaskedContent);
    lemma_event_keeps_consistency(s2, RecorderEvent::BeginMaskedContent);
    let s4 = s3.replay(masked_content);
    lemma_balanced_restores(s3, masked_content);
    let s5 = s4.replay(e);
    lemma_replay_one(s4, RecorderEvent::EndMask);
    lemma_replay_concat(s, b, mask_content);
    lemma_replay_concat(s, b + mask_content, mc);
    lemma_replay_concat(s, b + mask_content + mc, masked_content);
    lemma_replay_concat(s, b + mask_content + mc + masked_content, e);
    // the stacks
    assert(s3.masking_stack == s.masking_stack.push(
        MaskingMode::ReadMask(s2.mask_counter),
    ));
    assert(s3.thresholds == s.thresholds);
    assert(s4.masking_stack.drop_last() == s.masking_stack);
    // the commands
    let c = s.commands.len() as int;
    assert(s1.commands == s.commands.push(
        (s.puppet->0, RenderCommand::SetMaskingMode(MaskingMode::WriteMask(next_mask_value(s.mask_counter)))),
    ));
    assert(s2.commands.subrange(0, c + 1) == s1.commands);
    assert(s3.commands == s2.commands.push(
        (s.puppet->0, RenderCommand::SetMaskingMode(MaskingMode::ReadMask(s2.mask_counter))),
    ));
    assert(s3.commands.subrange(0, c + 1) == s2.commands.subrange(0, c + 1));
    assert(s4.commands.subrange(0, s3.commands.len() as int) == s3.commands);
    assert(s4.commands.subrange(0, c + 1) == s3.commands.subrange(0, c + 1));
    assert(s4.masking_stack.len() > 1);
    assert(s5.commands == s4.commands.push((s.puppet->0, RenderCommand::SetMaskingMode(s.current_mode))));
    assert(s5.commands.subrange(0, c + 1) == s4.commands.subrange(0, c + 1));
}

/// A composite group undoes its masking effect, whatever it draws inside:
/// after beginning a composite, drawing its content (with anything
/// well-nested inside) and finishing it, the masking stack, the current
/// mode and the threshold stack are as before; the commands recorded start
/// with the composite's start and end with the switch back to the mode in
/// force before and the composite draw.
pub proof fn lemma_composite_group_restores(
    s: RecorderState,
    content: Seq<RecorderEvent>,
    index_offset: u32,
    index_count: u32,
    blend_mode: BlendMode,
    opacity: u32,
    uniforms: UniformBlock,
)
    requires
        s.consistent(),
        s.masking_stack.len() > 0,
        s.puppet is Some,
        balanced(content),
    ensures
        ({
            let r = s.replay(
                seq![RecorderEvent::BeginComposite] + content + seq![
                    RecorderEvent::FinishComposite(index_offset, index_count, blend_mode, opacity, uniforms),
                ],
            );
            let n = r.commands.len();
            &&& r.masking_stack == s.masking_stack
            &&& r.current_mode == s.current_mode
            &&& r.thresholds == s.thresholds
            &&& r.commands.subrange(0, s.commands.len() + 1int) == s.commands.push(
                (s.puppet->0, RenderCommand::BeginComposite),
            )
            &&& n >= s.commands.len() + 3
            &&& r.commands[n - 2] == (s.puppet->0, RenderCommand::SetMaskingMode(s.current_mode))
            &&& r.commands[n - 1] == (
                s.puppet->0,
                RenderCommand::EndComposite { index_offset, index_count, blend_mode, opacity, uniforms },
            )
        }),
{
    let b = seq![RecorderEvent::BeginComposite];
    let f = seq![RecorderEvent::FinishComposite(index_offset, index_count, blend_mode, opacity, uniforms)];
    let s1 = s.replay(b);
    lemma_replay_one(s, RecorderEvent::BeginComposite);
    lemma_event_keeps_consistency(s, RecorderEvent::BeginComposite);
    let s2 = s1.replay(content);
    lemma_balanced_restores(s1, content);
    let s3 = s2.replay(f);
    lemma_replay_one(s2, RecorderEvent::FinishComposite(index_offset, index_count, blend_mode, opacity, uniforms));
    lemma_replay_concat(s, b, content);
    lemma_replay_concat(s, b + content, f);
    assert(s2.masking_stack.drop_last() == s.masking_stack);
    let c = s.commands.len() as int;
    assert(s2.commands.subrange(0, c + 1) == s1.commands);
    let t = s2.after_leaving_group();
    assert(t.commands == s2.commands.push((s.puppet->0, RenderCommand::SetMaskingMode(s.current_mode))));
    assert(s3.commands == t.commands.push(
        (s.puppet->0, RenderCommand::EndComposite { index_offset, index_count, blend_mode, opacity, uniforms }),
    ));
    assert(s3.commands.subrange(0, c + 1) == s2.commands.subrange(0, c + 1));
}

} // verus!
