//! The rule for writing push constants.
//!
//! A pipeline layout declares ranges of push constant memory, each for a set
//! of shader stages. A write names one set of stages, and every byte it
//! writes must be declared for exactly that set: the stages of all the ranges
//! that hold the byte, taken together, are the stages of the write. Where
//! ranges with different stages overlap, a write therefore has to be split at
//! the places where the stages change.

use vstd::prelude::*;
use crate::command::ShaderStage;

verus! {

/// A range of push constant memory, from the byte `start` up to, but not
/// including, the byte `end`, declared for the stages `stages`.
#[derive(Clone, Copy, Debug, PartialEq, Eq, Structural, Hash)]
pub struct PushConstantRange {
    pub stages: ShaderStage,
    pub start: u32,
    pub end: u32,
}

/// The first byte of a write that is not declared for the stages of the
/// write, and the stages that it is declared for.
#[derive(Clone, Copy, Debug, PartialEq, Eq, Structural)]
pub struct StageMismatch {
    pub byte: u64,
    pub declared: ShaderStage,
}

impl PushConstantRange {
    /// Whether the range holds `byte`.
    pub open spec fn holds(self, byte: int) -> bool {
        self.start <= byte < self.end
    }
}

/// The stages that `byte` is declared for: those of all the ranges that hold
/// it, taken together.
pub open spec fn declared_stages(ranges: Seq<PushConstantRange>, byte: int) -> u32
    decreases ranges.len(),
{
    if ranges.len() == 0 {
        0
    } else if ranges.last().holds(byte) {
        declared_stages(ranges.drop_last(), byte) | ranges.last().stages.bits
    } else {
        declared_stages(ranges.drop_last(), byte)
    }
}

/// Whether a write of `size` bytes at `offset` for the stages `stages` is
/// covered: every byte of it is declared for exactly these stages.
pub open spec fn write_is_covered(
    ranges: Seq<PushConstantRange>,
    stages: ShaderStage,
    offset: u32,
    size: u32,
) -> bool {
    forall|byte: int| offset <= byte < offset + size ==> declared_stages(ranges, byte) == stages.bits
}

/// Whether no range begins or ends after `from` and at or before `to`.
pub open spec fn no_edge_between(ranges: Seq<PushConstantRange>, from: int, to: int) -> bool {
    forall|k: int|
        0 <= k < ranges.len() ==> !(from < (#[trigger] ranges[k]).start <= to) && !(from
            < ranges[k].end <= to)
}

/// Between two bytes with no edge of a range from the first to the second,
/// the declared stages do not change.
pub proof fn lemma_stages_change_only_at_edges(ranges: Seq<PushConstantRange>, from: int, to: int)
    requires
        from <= to,
        no_edge_between(ranges, from, to),
    ensures
        declared_stages(ranges, to) == declared_stages(ranges, from),
    decreases ranges.len(),
{
    if ranges.len() > 0 {
        let rest = ranges.drop_last();
        assert forall|k: int| 0 <= k < rest.len() implies !(from < (#[trigger] rest[k]).start <= to)
            && !(from < rest[k].end <= to) by {
            assert(rest[k] == ranges[k]);
        }
        lemma_stages_change_only_at_edges(rest, from, to);
        let last = ranges[ranges.len() - 1];
        assert(last.holds(to) == last.holds(from));
    }
}

/// The stages that `byte` is declared for, and the next byte after it at which
/// a range begins or ends, or `limit` if that comes first.
fn stages_and_next_edge(ranges: &[PushConstantRange], byte: u64, limit: u64) -> (found: (
    u32,
    u64,
))
    requires
        byte < limit,
    ensures
        found.0 == declared_stages(ranges@, byte as int),
        byte < found.1 <= limit,
        no_edge_between(ranges@, byte as int, found.1 - 1),
{
    let mut stages: u32 = 0;
    let mut next: u64 = limit;
    let mut i: usize = 0;
    while i < ranges.len()
        invariant
            i <= ranges.len(),
            byte < next <= limit,
            stages == declared_stages(ranges@.take(i as int), byte as int),
            no_edge_between(ranges@.take(i as int), byte as int, next - 1),
        decreases ranges.len() - i,
    {
        let range = ranges[i];
        let start = range.start as u64;
        let end = range.end as u64;
        let ghost before = ranges@.take(i as int);
        let ghost after = ranges@.take(i + 1);
        proof {
            assert(after.drop_last() =~= before);
            assert(after.last() == range);
        }
        if start <= byte && byte < end {
            stages = stages | range.stages.bits;
        }
        if byte < start && start < next {
            next = start;
        }
        if byte < end && end < next {
            next = end;
        }
        proof {
            assert forall|k: int| 0 <= k < after.len() implies !(byte < (#[trigger] after[k]).start
                <= next - 1) && !(byte < after[k].end <= next - 1) by {
                if k < before.len() {
                    assert(after[k] == before[k]);
                }
            }
        }
        i += 1;
    }
    proof {
        assert(ranges@.take(ranges@.len() as int) =~= ranges@);
    }
    (stages, next)
}

/// Tells whether a write of `size` bytes at `offset` for the stages `stages`
/// is covered by the ranges `ranges`, and if not, where it first fails.
pub fn check_push_constants(
    ranges: &[PushConstantRange],
    stages: ShaderStage,
    offset: u32,
    size: u32,
) -> (verdict: Result<(), StageMismatch>)
    ensures
        verdict is Ok <==> write_is_covered(ranges@, stages, offset, size),
        verdict matches Err(mismatch) ==> {
            &&& offset <= mismatch.byte < offset + size
            &&& mismatch.declared.bits == declared_stages(ranges@, mismatch.byte as int)
            &&& mismatch.declared.bits != stages.bits
            &&& forall|byte: int|
                offset <= byte < mismatch.byte ==> declared_stages(ranges@, byte) == stages.bits
        },
{
    let limit = offset as u64 + size as u64;
    let mut byte = offset as u64;
    while byte < limit
        invariant
            offset <= byte <= limit,
            limit == offset + size,
            forall|earlier: int|
                offset <= earlier < byte ==> declared_stages(ranges@, earlier) == stages.bits,
        decreases limit - byte,
    {
        let (declared, next) = stages_and_next_edge(ranges, byte, limit);
        if declared != stages.bits {
            return Err(StageMismatch { byte, declared: ShaderStage { bits: declared } });
        }
        proof {
            assert forall|earlier: int| byte <= earlier < next implies declared_stages(
                ranges@,
                earlier,
            ) == stages.bits by {
                assert forall|k: int| 0 <= k < ranges@.len() implies !(byte < (
                #[trigger] ranges@[k]).start <= earlier) && !(byte < ranges@[k].end <= earlier) by {
                    assert(!(byte < ranges@[k].start <= next - 1));
                }
                lemma_stages_change_only_at_edges(ranges@, byte as int, earlier);
            }
        }
        byte = next;
    }
    Ok(())
}

} // verus!
