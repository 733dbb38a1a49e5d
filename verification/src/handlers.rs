//! The two callbacks of the ramp session: `setup` silences the output,
//! `render` fills it with a ramp whose height follows the block counter.

use vstd::prelude::*;
use crate::block::AudioBlock;
use crate::sample::Sample;
use crate::state::RuntimeState;

verus! {

/// The ramp's height repeats after this many blocks.
pub const RAMP_PERIOD: usize = 5;

/// Height of the ramp in the block rendered after `count` others.
pub open spec fn ramp_level(count: nat) -> nat {
    count % (RAMP_PERIOD as nat)
}

/// A region of `len` silent samples.
pub open spec fn silence(len: nat) -> Seq<Sample> {
    Seq::new(len, |i: int| Sample::silent())
}

/// The ramp over a region of `len` samples: sample `i` is
/// `(i / len) * level`.
pub open spec fn ramp(len: nat, level: nat) -> Seq<Sample> {
    Seq::new(
        len,
        |i: int| (Sample { position: i as usize, length: len as usize, gain: level as usize }),
    )
}

/// The output of the block rendered after `count` others, over a region
/// of `len` samples.
pub open spec fn block_ramp(len: nat, count: usize) -> Seq<Sample> {
    ramp(len, ramp_level(count as nat))
}

/// Prepares a block before the first render: every output sample becomes
/// silent. Always succeeds.
pub fn setup(block: &mut AudioBlock) -> (ready: bool)
    requires
        old(block).wf(),
    ensures
        ready,
        final(block).wf(),
        final(block).ctx() == old(block).ctx(),
        final(block).input_view() == old(block).input_view(),
        final(block).output_view() == silence(old(block).output_view().len()),
{
    let len: usize = block.output_len();
    let mut i: usize = 0;
    while i < len
        invariant
            i <= len,
            block.wf(),
            block.ctx() == old(block).ctx(),
            block.input_view() == old(block).input_view(),
            block.output_view().len() == len,
            len == old(block).output_view().len(),
            forall|j: int| 0 <= j < i ==> block.output_view()[j] == Sample::silent(),
        decreases len - i,
    {
        block.write_at(i, Sample::silence());
        i = i + 1;
    }
    assert(block.output_view() =~= silence(len as nat));
    true
}

/// Renders one block: output sample `i` of `len` becomes
/// `(i / len) * (count % 5)`, where `count` is the number of blocks
/// rendered before, and the counter goes up by one. The input region is
/// not touched.
pub fn render(block: &mut AudioBlock, state: &mut RuntimeState)
    requires
        old(block).wf(),
        old(state).count() < usize::MAX,
    ensures
        final(block).wf(),
        final(block).ctx() == old(block).ctx(),
        final(block).input_view() == old(block).input_view(),
        final(block).output_view() == ramp(
            old(block).output_view().len(),
            ramp_level(old(state).count()),
        ),
        *final(state) == old(state).advanced(),
        final(state).count() == old(state).count() + 1,
        final(state).stopping() == old(state).stopping(),
{
    let len: usize = block.output_len();
    let level: usize = state.frame_index() % RAMP_PERIOD;
    let mut i: usize = 0;
    while i < len
        invariant
            i <= len,
            block.wf(),
            block.ctx() == old(block).ctx(),
            block.input_view() == old(block).input_view(),
            block.output_view().len() == len,
            len == old(block).output_view().len(),
            forall|j: int|
                0 <= j < i ==> block.output_view()[j] == (Sample {
                    position: j as usize,
                    length: len,
                    gain: level,
                }),
        decreases len - i,
    {
        block.write_at(i, Sample::scaled(i, len, level));
        i = i + 1;
    }
    assert(block.output_view() =~= ramp(len as nat, level as nat));
    state.advance();
}

/// Renders one block for a counter that was read elsewhere, and answers
/// with the count to publish afterwards.
///
/// With `count` below the largest value the machine can hold, the block is
/// rendered as `render` does after `count` blocks and the answer is
/// `count + 1`. At the largest value nothing is rendered and the answer is
/// `None`.
pub fn render_counted(block: &mut AudioBlock, count: usize) -> (next: Option<usize>)
    requires
        old(block).wf(),
    ensures
        final(block).wf(),
        final(block).ctx() == old(block).ctx(),
        final(block).input_view() == old(block).input_view(),
        count < usize::MAX ==> {
            &&& next == Some((count + 1) as usize)
            &&& final(block).output_view() == block_ramp(old(block).output_view().len(), count)
        },
        count == usize::MAX ==> {
            &&& next.is_none()
            &&& final(block).output_view() == old(block).output_view()
        },
{
    if count == usize::MAX {
        return None;
    }
    let mut state = RuntimeState::starting_at(count);
    render(block, &mut state);
    Some(state.frame_index())
}

} // verus!
