//! Layout of the dynamic uniform buffer.

use vstd::prelude::*;
use crate::cmd::{RenderCommand, UniformBlock, UNIFORM_SIZE, uniform_blocks, uniforms_in};
use crate::seqs::{lemma_pick_single, lemma_pick_take_len, lemma_pick_take_step};

verus! {

/// Dynamic uniform offsets must be multiples of this many bytes
/// (the default minimum uniform-buffer offset alignment of WebGPU).
pub const UNIFORM_ALIGNMENT: u64 = 256;

/// Zero bytes that follow each uniform block up to the next aligned slot.
pub const UNIFORM_PADDING: usize = 144;

/// Initial capacity of the uniform buffer: room for 256 draws.
pub const INITIAL_UNIFORM_CAPACITY: u64 = 65536;

/// Smallest capacity the uniform buffer is ever grown to.
pub const MIN_GROWN_UNIFORM_CAPACITY: u64 = 65536;

/// One aligned slot of the uniform buffer: the block, then zero padding.
pub open spec fn padded_block(u: UniformBlock) -> Seq<u8> {
    u.bytes@ + Seq::new(UNIFORM_PADDING as nat, |i: int| 0u8)
}

/// The staging bytes for a sequence of uniform blocks: one aligned slot
/// per block, in order.
pub open spec fn staging_of(blocks: Seq<UniformBlock>) -> Seq<u8>
    decreases blocks.len(),
{
    if blocks.len() == 0 {
        Seq::empty()
    } else {
        staging_of(blocks.drop_last()) + padded_block(blocks.last())
    }
}

/// The capacity the uniform buffer has after `required` bytes are to be
/// uploaded into a buffer of `capacity` bytes.
pub open spec fn spec_grown_uniform_capacity(required: u64, capacity: u64) -> u64 {
    if required > capacity {
        if required * 2 >= MIN_GROWN_UNIFORM_CAPACITY {
            (required * 2) as u64
        } else {
            MIN_GROWN_UNIFORM_CAPACITY
        }
    } else {
        capacity
    }
}

/// What must happen on the GPU after the staging bytes were written.
#[derive(Debug, Clone, Copy, PartialEq, Eq, Structural)]
pub enum UniformUpload {
    /// Nothing to upload.
    Skip,
    /// Upload the staging bytes into the current buffer.
    Upload,
    /// Recreate the buffer (and its bind group) with the new capacity, then upload.
    GrowAndUpload { capacity: u64 },
}

/// CPU side of the dynamic uniform buffer: its capacity and its staging bytes.
pub struct UniformBuffer {
    capacity: u64,
    staging: Vec<u8>,
}

impl UniformBuffer {
    /// Capacity of the GPU buffer in bytes.
    pub closed spec fn spec_capacity(&self) -> u64 {
        self.capacity
    }

    /// The staging bytes.
    pub closed spec fn spec_staging(&self) -> Seq<u8> {
        self.staging@
    }

    /// An empty staging area in front of a buffer with room for 256 draws.
    pub fn new() -> (u: Self)
        ensures
            u.spec_capacity() == INITIAL_UNIFORM_CAPACITY,
            u.spec_staging() == Seq::<u8>::empty(),
    {
        UniformBuffer { capacity: INITIAL_UNIFORM_CAPACITY, staging: Vec::new() }
    }

    pub fn capacity(&self) -> (c: u64)
        ensures
            c == self.spec_capacity(),
    {
        self.capacity
    }

    pub fn staging(&self) -> (s: &[u8])
        ensures
            s@ == self.spec_staging(),
    {
        self.staging.as_slice()
    }

    /// Lays out the uniform blocks of the recorded commands in the staging
    /// area, one aligned slot per drawing command, and decides whether the
    /// GPU buffer has to grow. With no commands, the staging area is left
    /// as it was and nothing is uploaded.
    pub fn write_uniforms(&mut self, cmds: &[(usize, RenderCommand)]) -> (up: UniformUpload)
        requires
            uniform_blocks(cmds@).len() * UNIFORM_ALIGNMENT <= isize::MAX,
        ensures
            cmds@.len() == 0 ==> final(self).spec_staging() == old(self).spec_staging() && up
                == UniformUpload::Skip && final(self).spec_capacity() == old(self).spec_capacity(),
            cmds@.len() > 0 ==> final(self).spec_staging() == staging_of(uniform_blocks(cmds@)),
            cmds@.len() > 0 ==> final(self).spec_capacity() == spec_grown_uniform_capacity(
                final(self).spec_staging().len() as u64,
                old(self).spec_capacity(),
            ),
            cmds@.len() > 0 && uniform_blocks(cmds@).len() == 0 ==> up == UniformUpload::Skip,
            // whatever is uploaded fits the buffer, which never shrinks
            up != UniformUpload::Skip ==> final(self).spec_staging().len() <= final(self).spec_capacity(),
            old(self).spec_capacity() <= final(self).spec_capacity(),
            cmds@.len() > 0 && uniform_blocks(cmds@).len() > 0 ==> up == (if final(self).spec_staging().len() > old(self).spec_capacity() {
                UniformUpload::GrowAndUpload { capacity: final(self).spec_capacity() }
            } else {
                UniformUpload::Upload
            }),
    {
        if cmds.len() == 0 {
            return UniformUpload::Skip;
        }
        self.staging.clear();
        let mut i: usize = 0;
        while i < cmds.len()
            invariant
                0 <= i <= cmds@.len(),
                self.staging@ == staging_of(uniform_blocks(cmds@.take(i as int))),
                uniform_blocks(cmds@).len() * UNIFORM_ALIGNMENT <= isize::MAX,
                self.capacity == old(self).capacity,
            decreases cmds@.len() - i,
        {
            proof {
                assert(cmds@.take(i + 1).drop_last() == cmds@.take(i as int));
                lemma_pick_take_len(cmds@, i + 1, |c: (usize, RenderCommand)| uniforms_in(c));
                lemma_staging_len(uniform_blocks(cmds@.take(i as int)));
            }
            let ghost prefix = uniform_blocks(cmds@.take(i as int));
            let (_, cmd) = &cmds[i];
            assert(cmds@.take(i + 1).last() == cmds@[i as int]);
            match cmd {
                RenderCommand::Draw { uniforms, .. } => {
                    push_padded_block(&mut self.staging, uniforms);
                    assert(prefix.push(*uniforms).drop_last() == prefix);
                },
                RenderCommand::EndComposite { uniforms, .. } => {
                    push_padded_block(&mut self.staging, uniforms);
                    assert(prefix.push(*uniforms).drop_last() == prefix);
                },
                _ => {},
            }
            i = i + 1;
        }
        assert(cmds@.take(cmds@.len() as int) == cmds@);
        if self.staging.len() == 0 {
            proof {
                lemma_staging_len(uniform_blocks(cmds@));
            }
            return UniformUpload::Skip;
        }
        proof {
            lemma_staging_len(uniform_blocks(cmds@));
        }
        let required = self.staging.len() as u64;
        if required > self.capacity {
            let doubled = required * 2;
            self.capacity = if doubled >= MIN_GROWN_UNIFORM_CAPACITY {
                doubled
            } else {
                MIN_GROWN_UNIFORM_CAPACITY
            };
            UniformUpload::GrowAndUpload { capacity: self.capacity }
        } else {
            UniformUpload::Upload
        }
    }
}

fn push_padded_block(staging: &mut Vec<u8>, block: &UniformBlock)
    ensures
        final(staging)@ == old(staging)@ + padded_block(*block),
{
    let mut k: usize = 0;
    while k < UNIFORM_SIZE
        invariant
            0 <= k <= UNIFORM_SIZE,
            staging@ == old(staging)@ + block.bytes@.take(k as int),
        decreases UNIFORM_SIZE - k,
    {
        staging.push(block.bytes[k]);
        assert(block.bytes@.take(k + 1) == block.bytes@.take(k as int).push(block.bytes@[k as int]));
        k = k + 1;
    }
    assert(block.bytes@.take(UNIFORM_SIZE as int) == block.bytes@);
    let ghost mid = staging@;
    let mut p: usize = 0;
    while p < UNIFORM_PADDING
        invariant
            0 <= p <= UNIFORM_PADDING,
            staging@ == mid + Seq::new(p as nat, |i: int| 0u8),
        decreases UNIFORM_PADDING - p,
    {
        staging.push(0u8);
        assert(Seq::new((p + 1) as nat, |i: int| 0u8) == Seq::new(p as nat, |i: int| 0u8).push(0u8));
        p = p + 1;
    }
    assert(staging@ == old(staging)@ + padded_block(*block));
}

/// Each slot of the staging area is exactly 256 bytes long.
pub proof fn lemma_staging_len(blocks: Seq<UniformBlock>)
    ensures
        staging_of(blocks).len() == blocks.len() * UNIFORM_ALIGNMENT,
    decreases blocks.len(),
{
    if blocks.len() > 0 {
        lemma_staging_len(blocks.drop_last());
        assert(blocks.last().bytes@.len() == UNIFORM_SIZE);
    }
}

/// The `k`-th uniform block sits at byte offset `256 * k` of the staging
/// area, followed by zeros up to the next slot.
pub proof fn lemma_block_at_slot(blocks: Seq<UniformBlock>, k: int)
    requires
        0 <= k < blocks.len(),
    ensures
        staging_of(blocks).subrange(k * 256, k * 256 + UNIFORM_SIZE) == blocks[k].bytes@,
        forall|j: int|
            k * 256 + UNIFORM_SIZE <= j < (k + 1) * 256 ==> #[trigger] staging_of(blocks)[j] == 0u8,
    decreases blocks.len(),
{
    lemma_staging_len(blocks.drop_last());
    let prev = staging_of(blocks.drop_last());
    let last = padded_block(blocks.last());
    assert(blocks.last().bytes@.len() == UNIFORM_SIZE);
    if k < blocks.len() - 1 {
        lemma_block_at_slot(blocks.drop_last(), k);
        lemma_staging_len(blocks.drop_last());
        assert(staging_of(blocks) == prev + last);
        assert((k + 1) * 256 <= prev.len()) by (nonlinear_arith)
            requires
                k < blocks.len() - 1,
                prev.len() == (blocks.len() - 1) * 256,
        ;
        assert(staging_of(blocks).subrange(k * 256, k * 256 + UNIFORM_SIZE) == prev.subrange(
            k * 256,
            k * 256 + UNIFORM_SIZE,
        ));
    } else {
        assert(prev.len() == k * 256);
        assert(staging_of(blocks) == prev + last);
        assert(staging_of(blocks).subrange(k * 256, k * 256 + UNIFORM_SIZE) == blocks[k].bytes@);
    }
}

/// Whether the staging area for the uniform blocks of `cmds` (one aligned
/// slot per drawing command) stays within the largest allocation a `Vec`
/// may make.
pub fn uniforms_fit(cmds: &[(usize, RenderCommand)]) -> (ok: bool)
    ensures
        ok == (uniform_blocks(cmds@).len() * UNIFORM_ALIGNMENT <= isize::MAX),
{
    let n = cmds.len();
    let limit: usize = (isize::MAX as usize) / 256;
    let mut draws: usize = 0;
    let mut i: usize = 0;
    while i < n
        invariant
            0 <= i <= n,
            n == cmds@.len(),
            limit == isize::MAX / 256,
            draws == uniform_blocks(cmds@.take(i as int)).len(),
            draws <= limit,
        decreases n - i,
    {
        proof {
            lemma_pick_take_step(cmds@, i as int, |c: (usize, RenderCommand)| uniforms_in(c));
            lemma_pick_single(cmds@[i as int], |c: (usize, RenderCommand)| uniforms_in(c));
        }
        let drawing = match cmds[i].1 {
            RenderCommand::Draw { .. } => true,
            RenderCommand::EndComposite { .. } => true,
            _ => false,
        };
        if drawing {
            if draws == limit {
                proof {
                    lemma_pick_take_len(cmds@, i as int + 1, |c: (usize, RenderCommand)| uniforms_in(c));
                    let total = uniform_blocks(cmds@).len();
                    assert(total * 256 > isize::MAX) by (nonlinear_arith)
                        requires
                            total >= limit + 1,
                            limit == isize::MAX / 256,
                            isize::MAX > 0,
                    ;
                }
                return false;
            }
            draws = draws + 1;
        }
        i = i + 1;
    }
    proof {
        assert(cmds@.take(n as int) == cmds@);
        assert(draws * 256 <= isize::MAX) by (nonlinear_arith)
            requires
                draws <= limit,
                limit == isize::MAX / 256,
                isize::MAX > 0,
        ;
    }
    true
}

} // verus!
