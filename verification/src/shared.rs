//! The session state as it is shared between threads.
//!
//! The real-time thread is the only writer of the counter; the signal path
//! only raises the stop flag, with one atomic store. Nothing here locks,
//! blocks or allocates. What another thread may have stored is not known
//! to a reader, so these functions promise nothing about the values they
//! load: the exact rules are those of `RuntimeState`, on which they rest.

use vstd::prelude::*;
use std::sync::atomic::{AtomicBool, AtomicUsize, Ordering};
use crate::block::AudioBlock;
use crate::handlers::{block_ramp, render_counted};
use crate::state::RuntimeState;

verus! {

/// Counter and stop flag of one session, each in an atomic cell.
pub struct SharedState {
    frame_index: AtomicUsize,
    stop_requested: AtomicBool,
}

impl SharedState {
    /// The shared state of a fresh session.
    pub fn new() -> (shared: SharedState) {
        SharedState { frame_index: AtomicUsize::new(0), stop_requested: AtomicBool::new(false) }
    }

    /// Blocks rendered so far, as last published by the real-time thread.
    pub fn frame_index(&self) -> (n: usize) {
        self.frame_index.load(Ordering::SeqCst)
    }

    /// Whether a stop has been requested.
    pub fn stop_requested(&self) -> (flag: bool) {
        self.stop_requested.load(Ordering::SeqCst)
    }

    /// Raises the stop flag: one atomic store and nothing else, so that it
    /// may be called from a signal handler.
    pub fn request_stop(&self) {
        self.stop_requested.store(true, Ordering::SeqCst);
    }

    /// The state as plain values, read now.
    pub fn snapshot(&self) -> (state: RuntimeState) {
        let frame_index: usize = self.frame_index.load(Ordering::SeqCst);
        let stop_requested = self.stop_requested.load(Ordering::SeqCst);
        RuntimeState::restored(frame_index, stop_requested)
    }
}

/// Renders one block against the shared counter and publishes the new
/// count.
///
/// Returns the count the block was rendered with. Returns `None`, with the
/// block untouched, when the counter has reached the largest value the
/// machine can hold. Which of the two happens rests on the counter as it
/// was read; `render_counted` says what is done for each value of it.
pub fn render_shared(block: &mut AudioBlock, shared: &SharedState) -> (rendered: Option<usize>)
    requires
        old(block).wf(),
    ensures
        final(block).wf(),
        final(block).ctx() == old(block).ctx(),
        final(block).input_view() == old(block).input_view(),
        match rendered {
            Some(count) => {
                &&& count < usize::MAX
                &&& final(block).output_view() == block_ramp(
                    old(block).output_view().len(),
                    count,
                )
            },
            None => final(block).output_view() == old(block).output_view(),
        },
{
    let count: usize = shared.frame_index.load(Ordering::SeqCst);
    match render_counted(block, count) {
        Some(next) => {
            shared.frame_index.store(next, Ordering::SeqCst);
            Some(count)
        },
        None => None,
    }
}

} // verus!
