//! The state that outlives a block: the running block counter and the
//! stop flag.

use vstd::prelude::*;

verus! {

/// Counters and flags of one audio session.
///
/// The counter goes up by one per rendered block and never goes down; the
/// stop flag, once raised, stays raised.
#[derive(Clone, Copy, Debug, PartialEq, Eq, Structural)]
pub struct RuntimeState {
    frame_index: usize,
    stop_requested: bool,
}

impl RuntimeState {
    /// Blocks rendered so far.
    pub closed spec fn count(self) -> nat {
        self.frame_index as nat
    }

    /// Whether a stop has been requested.
    pub closed spec fn stopping(self) -> bool {
        self.stop_requested
    }

    /// The state after one more rendered block.
    pub closed spec fn advanced(self) -> RuntimeState {
        RuntimeState {
            frame_index: (self.frame_index + 1) as usize,
            stop_requested: self.stop_requested,
        }
    }

    /// The state after `n` more rendered blocks.
    pub open spec fn after_blocks(self, n: nat) -> RuntimeState
        decreases n,
    {
        if n == 0 {
            self
        } else {
            self.advanced().after_blocks((n - 1) as nat)
        }
    }

    /// The state with the stop flag raised.
    pub closed spec fn stopped(self) -> RuntimeState {
        RuntimeState { frame_index: self.frame_index, stop_requested: true }
    }

    /// Two states are the same exactly when counter and flag agree.
    pub proof fn lemma_same(self, other: RuntimeState)
        ensures
            (self == other) <==> (self.count() == other.count() && self.stopping()
                == other.stopping()),
    {
    }

    /// One more block adds one to the counter and leaves the flag alone.
    pub proof fn lemma_advanced(self)
        requires
            self.count() < usize::MAX,
        ensures
            self.advanced().count() == self.count() + 1,
            self.advanced().stopping() == self.stopping(),
    {
    }

    /// Raising the flag leaves the counter alone, and raising it again
    /// changes nothing.
    pub proof fn lemma_stopped(self)
        ensures
            self.stopped().stopping(),
            self.stopped().count() == self.count(),
            self.stopped().stopped() == self.stopped(),
    {
    }

    /// A stop request and a rendered block do not disturb each other:
    /// whichever comes first, the state afterwards is the same.
    pub proof fn lemma_stop_and_block_commute(self)
        ensures
            self.advanced().stopped() == self.stopped().advanced(),
    {
    }

    /// After `n` blocks the counter is `n` higher: no update is lost, and
    /// the counter never goes down. The stop flag is untouched.
    pub proof fn lemma_blocks_accumulate(self, n: nat)
        requires
            self.count() + n <= usize::MAX,
        ensures
            self.after_blocks(n).count() == self.count() + n,
            self.after_blocks(n).count() >= self.count(),
            self.after_blocks(n).stopping() == self.stopping(),
        decreases n,
    {
        if n > 0 {
            self.lemma_advanced();
            self.advanced().lemma_blocks_accumulate((n - 1) as nat);
        }
    }

    /// Rendering `m` blocks and then `n` more is rendering `m + n`.
    pub proof fn lemma_blocks_compose(self, m: nat, n: nat)
        ensures
            self.after_blocks(m).after_blocks(n) == self.after_blocks(m + n),
        decreases m,
    {
        if m > 0 {
            self.advanced().lemma_blocks_compose((m - 1) as nat, n);
            assert(self.after_blocks(m + n) == self.advanced().after_blocks((m + n - 1) as nat));
        }
    }

    /// The state of a fresh session: no block rendered, no stop requested.
    pub fn new() -> (state: RuntimeState)
        ensures
            state.count() == 0,
            !state.stopping(),
    {
        RuntimeState { frame_index: 0, stop_requested: false }
    }

    /// The state of a session that has rendered `frame_index` blocks.
    pub fn starting_at(frame_index: usize) -> (state: RuntimeState)
        ensures
            state.count() == frame_index,
            !state.stopping(),
    {
        RuntimeState { frame_index, stop_requested: false }
    }

    /// The state with the given counter and stop flag.
    pub fn restored(frame_index: usize, stop_requested: bool) -> (state: RuntimeState)
        ensures
            state.count() == frame_index,
            state.stopping() == stop_requested,
    {
        RuntimeState { frame_index, stop_requested }
    }

    /// Blocks rendered so far.
    pub fn frame_index(&self) -> (n: usize)
        ensures
            n == self.count(),
    {
        self.frame_index
    }

    /// Whether a stop has been requested.
    pub fn stop_requested(&self) -> (flag: bool)
        ensures
            flag == self.stopping(),
    {
        self.stop_requested
    }

    /// Counts one rendered block.
    pub fn advance(&mut self)
        requires
            old(self).count() < usize::MAX,
        ensures
            *final(self) == old(self).advanced(),
            final(self).count() == old(self).count() + 1,
            final(self).stopping() == old(self).stopping(),
    {
        self.frame_index = self.frame_index + 1;
    }

    /// Raises the stop flag. The counter is untouched.
    pub fn request_stop(&mut self)
        ensures
            *final(self) == old(self).stopped(),
            final(self).stopping(),
            final(self).count() == old(self).count(),
    {
        self.stop_requested = true;
    }
}

} // verus!
