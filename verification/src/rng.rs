//! The injectable random source. All nondeterminism of the game (per-entity
//! inclusion rolls and behavior-internal draws) flows through one
//! [`RandomSource`] value, so tests can substitute a deterministic sequence
//! and the simulation is a pure function of its inputs when they do.

use rand::Rng;
use vstd::prelude::*;

verus! {

/// A source of random draws.
#[derive(Clone, PartialEq, Eq, Debug)]
pub enum RandomSource {
    /// A deterministic sequence of raw values, consumed front to back. Once
    /// exhausted, every draw yields the lower bound of its range.
    Sequence { values: Vec<u64> },
    /// The process-wide system generator.
    System,
}

/// The value a deterministic sequence yields for one draw in `lo..=hi`: the
/// front value reduced into the range, or `lo` once the sequence is empty.
pub open spec fn seq_roll(rolls: Seq<u64>, lo: u32, hi: u32) -> u32 {
    if rolls.len() == 0 {
        lo
    } else {
        (lo + (rolls[0] as int) % (hi - lo + 1)) as u32
    }
}

/// What is left of a deterministic sequence after one draw.
pub open spec fn seq_advance(rolls: Seq<u64>) -> Seq<u64> {
    if rolls.len() == 0 {
        rolls
    } else {
        rolls.skip(1)
    }
}

/// Relies on rand::Rng::gen_range over the inclusive range `lo..=hi`:
/// it panics only on an empty range (excluded by `lo <= hi`) and returns a
/// uniformly drawn value within the range.
#[verifier::external_body]
fn sys_range(lo: u32, hi: u32) -> (r: u32)
    requires
        lo <= hi,
    ensures
        lo <= r <= hi,
{
    rand::thread_rng().gen_range(lo..=hi)
}

impl RandomSource {
    /// Whether this source is a deterministic sequence.
    pub open spec fn is_sequence(&self) -> bool {
        match self {
            RandomSource::Sequence { .. } => true,
            RandomSource::System => false,
        }
    }

    /// The raw values a deterministic sequence has left.
    pub open spec fn remaining(&self) -> Seq<u64> {
        match self {
            RandomSource::Sequence { values } => values@,
            RandomSource::System => Seq::empty(),
        }
    }

    /// Draws one value in `lo..=hi`. A sequence source consumes its front
    /// value; the draw is then a pure function of the sequence.
    pub fn next_in_range(&mut self, lo: u32, hi: u32) -> (r: u32)
        requires
            lo <= hi,
        ensures
            lo <= r <= hi,
            final(self).is_sequence() == old(self).is_sequence(),
            old(self).is_sequence() ==> r == seq_roll(old(self).remaining(), lo, hi)
                && final(self).remaining() == seq_advance(old(self).remaining()),
    {
        match self {
            RandomSource::Sequence { values } => {
                if values.len() > 0 {
                    let v = values.remove(0);
                    proof {
                        assert(values@ =~= old(self).remaining().skip(1));
                    }
                    let span: u64 = (hi - lo) as u64 + 1;
                    let off: u64 = v % span;
                    lo + (off as u32)
                } else {
                    lo
                }
            },
            RandomSource::System => sys_range(lo, hi),
        }
    }
}

} // verus!
