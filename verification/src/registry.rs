//! The callback registry: which handler the real-time thread runs, and in
//! what order.
//!
//! `setup` runs once before the first `render`. If it fails, nothing runs
//! after it. `render` runs once per block. `cleanup` runs once, after the
//! backend has stopped. A handler that was not registered is skipped; a
//! missing `setup` counts as one that succeeded.

use vstd::prelude::*;
use crate::settings::Handlers;

verus! {

/// How far the real-time thread has come.
#[derive(Clone, Copy, Debug, PartialEq, Eq, Structural)]
pub enum Stage {
    /// Handlers are registered; the backend has not started.
    Registered,
    /// `setup` is running.
    SettingUp,
    /// Blocks are being rendered.
    Ready,
    /// `setup` failed; the start was aborted.
    Failed,
    /// The backend has stopped.
    Finished,
}

/// What the backend reports on its real-time thread.
#[derive(Clone, Copy, Debug, PartialEq, Eq, Structural)]
pub enum BackendEvent {
    /// The backend is starting.
    Start,
    /// `setup` has returned, with its result.
    SetupReturned(bool),
    /// One block is due.
    Block,
    /// The backend has stopped.
    Stop,
}

/// A handler to run.
#[derive(Clone, Copy, Debug, PartialEq, Eq, Structural)]
pub enum Callback {
    Setup,
    Render,
    Cleanup,
}

/// The stage that follows `stage` on `event`. An event that does not apply
/// changes nothing.
pub open spec fn stage_after(handlers: Handlers, stage: Stage, event: BackendEvent) -> Stage {
    match (stage, event) {
        (Stage::Registered, BackendEvent::Start) => if handlers.setup {
            Stage::SettingUp
        } else {
            Stage::Ready
        },
        (Stage::SettingUp, BackendEvent::SetupReturned(ok)) => if ok {
            Stage::Ready
        } else {
            Stage::Failed
        },
        (Stage::Ready, BackendEvent::Stop) => Stage::Finished,
        _ => stage,
    }
}

/// The handler to run when `event` arrives at `stage`, if any.
pub open spec fn callback_for(handlers: Handlers, stage: Stage, event: BackendEvent) -> Option<
    Callback,
> {
    match (stage, event) {
        (Stage::Registered, BackendEvent::Start) => if handlers.setup {
            Some(Callback::Setup)
        } else {
            None
        },
        (Stage::Ready, BackendEvent::Block) => if handlers.render {
            Some(Callback::Render)
        } else {
            None
        },
        (Stage::Ready, BackendEvent::Stop) => if handlers.cleanup {
            Some(Callback::Cleanup)
        } else {
            None
        },
        _ => None,
    }
}

/// The stage after a whole sequence of events.
pub open spec fn stage_after_all(handlers: Handlers, stage: Stage, events: Seq<BackendEvent>) -> Stage
    decreases events.len(),
{
    if events.len() == 0 {
        stage
    } else {
        stage_after_all(handlers, stage_after(handlers, stage, events[0]), events.drop_first())
    }
}

/// How often `wanted` is run over a sequence of events.
pub open spec fn runs_of(
    handlers: Handlers,
    stage: Stage,
    events: Seq<BackendEvent>,
    wanted: Callback,
) -> nat
    decreases events.len(),
{
    if events.len() == 0 {
        0
    } else {
        let here: nat = if callback_for(handlers, stage, events[0]) == Some(wanted) {
            1
        } else {
            0
        };
        here + runs_of(
            handlers,
            stage_after(handlers, stage, events[0]),
            events.drop_first(),
            wanted,
        )
    }
}

/// After a failed `setup`, and after the backend has stopped, no handler
/// runs again.
pub proof fn lemma_nothing_runs_after_the_end(
    handlers: Handlers,
    stage: Stage,
    events: Seq<BackendEvent>,
    wanted: Callback,
)
    requires
        stage == Stage::Failed || stage == Stage::Finished,
    ensures
        stage_after_all(handlers, stage, events) == stage,
        runs_of(handlers, stage, events, wanted) == 0,
    decreases events.len(),
{
    if events.len() > 0 {
        lemma_nothing_runs_after_the_end(
            handlers,
            stage_after(handlers, stage, events[0]),
            events.drop_first(),
            wanted,
        );
    }
}

/// Once the backend has started, `setup` does not run again.
pub proof fn lemma_no_second_setup(handlers: Handlers, stage: Stage, events: Seq<BackendEvent>)
    requires
        stage != Stage::Registered,
    ensures
        runs_of(handlers, stage, events, Callback::Setup) == 0,
    decreases events.len(),
{
    if events.len() > 0 {
        lemma_no_second_setup(
            handlers,
            stage_after(handlers, stage, events[0]),
            events.drop_first(),
        );
    }
}

/// Over any sequence of events, `setup` and `cleanup` each run at most
/// once.
pub proof fn lemma_setup_and_cleanup_at_most_once(
    handlers: Handlers,
    stage: Stage,
    events: Seq<BackendEvent>,
)
    ensures
        runs_of(handlers, stage, events, Callback::Setup) <= 1,
        runs_of(handlers, stage, events, Callback::Cleanup) <= 1,
    decreases events.len(),
{
    if events.len() > 0 {
        let after = stage_after(handlers, stage, events[0]);
        let rest = events.drop_first();
        lemma_setup_and_cleanup_at_most_once(handlers, after, rest);
        if after != Stage::Registered {
            lemma_no_second_setup(handlers, after, rest);
        }
        if after == Stage::Finished {
            lemma_nothing_runs_after_the_end(handlers, after, rest, Callback::Cleanup);
        }
    }
}

/// Nothing is rendered before `setup` has succeeded: while the registry
/// has not reached `Ready`, a block runs no handler.
pub proof fn lemma_no_render_before_ready(handlers: Handlers, stage: Stage)
    requires
        stage != Stage::Ready,
    ensures
        callback_for(handlers, stage, BackendEvent::Block).is_none(),
{
}

/// With no handler registered, nothing ever runs.
pub proof fn lemma_empty_registry_runs_nothing(
    stage: Stage,
    events: Seq<BackendEvent>,
    wanted: Callback,
)
    ensures
        runs_of(
            Handlers { setup: false, render: false, cleanup: false },
            stage,
            events,
            wanted,
        ) == 0,
    decreases events.len(),
{
    if events.len() > 0 {
        let none = Handlers { setup: false, render: false, cleanup: false };
        lemma_empty_registry_runs_nothing(
            stage_after(none, stage, events[0]),
            events.drop_first(),
            wanted,
        );
    }
}

/// The handlers of one session and the stage their thread has reached.
pub struct CallbackRegistry {
    handlers: Handlers,
    stage: Stage,
}

impl CallbackRegistry {
    /// The registered handlers.
    pub closed spec fn registered(&self) -> Handlers {
        self.handlers
    }

    /// The stage reached.
    pub closed spec fn reached(&self) -> Stage {
        self.stage
    }

    /// Registers the handlers of a session that has not started.
    pub fn new(handlers: Handlers) -> (registry: CallbackRegistry)
        ensures
            registry.registered() == handlers,
            registry.reached() == Stage::Registered,
    {
        CallbackRegistry { handlers, stage: Stage::Registered }
    }

    /// Takes one event from the backend and answers with the handler to
    /// run, if any.
    pub fn dispatch(&mut self, event: BackendEvent) -> (callback: Option<Callback>)
        ensures
            final(self).registered() == old(self).registered(),
            final(self).reached() == stage_after(old(self).registered(), old(self).reached(), event),
            callback == callback_for(old(self).registered(), old(self).reached(), event),
    {
        match (self.stage, event) {
            (Stage::Registered, BackendEvent::Start) => {
                if self.handlers.setup {
                    self.stage = Stage::SettingUp;
                    Some(Callback::Setup)
                } else {
                    self.stage = Stage::Ready;
                    None
                }
            },
            (Stage::SettingUp, BackendEvent::SetupReturned(ok)) => {
                if ok {
                    self.stage = Stage::Ready;
                } else {
                    self.stage = Stage::Failed;
                }
                None
            },
            (Stage::Ready, BackendEvent::Block) => {
                if self.handlers.render {
                    Some(Callback::Render)
                } else {
                    None
                }
            },
            (Stage::Ready, BackendEvent::Stop) => {
                self.stage = Stage::Finished;
                if self.handlers.cleanup {
                    Some(Callback::Cleanup)
                } else {
                    None
                }
            },
            _ => None,
        }
    }

    /// The registered handlers.
    pub fn handlers(&self) -> (h: Handlers)
        ensures
            h == self.registered(),
    {
        self.handlers
    }

    /// The stage reached.
    pub fn stage(&self) -> (s: Stage)
        ensures
            s == self.reached(),
    {
        self.stage
    }
}

} // verus!
