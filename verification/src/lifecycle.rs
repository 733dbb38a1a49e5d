//! The session lifecycle: which backend call comes next, and when.
//!
//! The controller never touches the backend itself. It is told what
//! happened (an `Event`) and answers with what to do (an `Action`); whoever
//! drives it performs the action and reports back.

use vstd::prelude::*;
use crate::settings::{ConfigError, Handlers, Settings};

verus! {

/// Where a session stands.
#[derive(Clone, Copy, Debug, PartialEq, Eq, Structural)]
pub enum Phase {
    Unconfigured,
    Configured,
    Running,
    StopRequested,
    Stopped,
}

/// Why a session ended without running to a normal stop.
#[derive(Clone, Copy, Debug, PartialEq, Eq, Structural)]
pub enum SessionError {
    /// The backend refused to initialise.
    BackendInit,
    /// The backend initialised but refused to start.
    BackendStart,
}

/// What the driver reports to the controller.
#[derive(Clone, Copy, Debug, PartialEq, Eq, Structural)]
pub enum Event {
    /// The backend accepted the settings.
    InitSucceeded,
    /// The backend refused the settings or found no hardware.
    InitFailed,
    /// The backend started its real-time thread.
    StartSucceeded,
    /// The backend could not start.
    StartFailed,
    /// A stop was requested, by a signal or by a call.
    StopRequest,
    /// One polling interval of the wait loop has passed.
    Tick,
}

/// What the controller asks the driver to do.
#[derive(Clone, Copy, Debug, PartialEq, Eq, Structural)]
pub enum Action {
    /// Nothing.
    Idle,
    /// Hand the settings to the backend.
    InitBackend,
    /// Start the backend with the registered handlers.
    StartBackend,
    /// Sleep one polling interval, then report a `Tick`.
    Wait,
    /// Stop the backend, then release its resources.
    StopAndTeardown,
}

/// The controller's state as plain values.
#[derive(Clone, Copy, Debug, PartialEq, Eq, Structural)]
pub struct Session {
    pub phase: Phase,
    /// Whether the backend has accepted the settings.
    pub initialized: bool,
    /// The failure that ended the session, if one did.
    pub failure: Option<SessionError>,
}

/// The session that follows `s` on `event`. An event that does not apply
/// in the current phase changes nothing.
pub open spec fn next(s: Session, event: Event) -> Session {
    match (s.phase, event) {
        (Phase::Configured, Event::InitSucceeded) if !s.initialized => Session {
            initialized: true,
            ..s
        },
        (Phase::Configured, Event::InitFailed) if !s.initialized => Session {
            phase: Phase::Stopped,
            failure: Some(SessionError::BackendInit),
            ..s
        },
        (Phase::Configured, Event::StartSucceeded) if s.initialized => Session {
            phase: Phase::Running,
            ..s
        },
        (Phase::Configured, Event::StartFailed) if s.initialized => Session {
            phase: Phase::Stopped,
            failure: Some(SessionError::BackendStart),
            ..s
        },
        (Phase::Running, Event::StopRequest) => Session { phase: Phase::StopRequested, ..s },
        (Phase::StopRequested, Event::Tick) => Session { phase: Phase::Stopped, ..s },
        _ => s,
    }
}

/// What the controller asks for when `event` arrives in session `s`.
pub open spec fn action(s: Session, event: Event) -> Action {
    match (s.phase, event) {
        (Phase::Configured, Event::InitSucceeded) if !s.initialized => Action::StartBackend,
        (Phase::Configured, Event::StartSucceeded) if s.initialized => Action::Wait,
        (Phase::Configured, Event::StartFailed) if s.initialized => Action::StopAndTeardown,
        (Phase::Running, Event::Tick) => Action::Wait,
        (Phase::StopRequested, Event::Tick) => Action::StopAndTeardown,
        _ => Action::Idle,
    }
}

/// The session after a whole sequence of events.
pub open spec fn run(s: Session, events: Seq<Event>) -> Session
    decreases events.len(),
{
    if events.len() == 0 {
        s
    } else {
        run(next(s, events[0]), events.drop_first())
    }
}

/// How often the controller asks for `wanted` over a sequence of events.
pub open spec fn requests(s: Session, events: Seq<Event>, wanted: Action) -> nat
    decreases events.len(),
{
    if events.len() == 0 {
        0
    } else {
        let here: nat = if action(s, events[0]) == wanted {
            1
        } else {
            0
        };
        here + requests(next(s, events[0]), events.drop_first(), wanted)
    }
}

/// A stopped session is final: no event moves it and none makes it ask
/// for anything.
pub proof fn lemma_stopped_is_final(s: Session, events: Seq<Event>, wanted: Action)
    requires
        s.phase == Phase::Stopped,
        wanted != Action::Idle,
    ensures
        run(s, events) == s,
        requests(s, events, wanted) == 0,
    decreases events.len(),
{
    if events.len() > 0 {
        lemma_stopped_is_final(next(s, events[0]), events.drop_first(), wanted);
    }
}

/// Before it is configured a session asks for nothing, whatever it is
/// told: the backend is not contacted.
pub proof fn lemma_unconfigured_is_inert(s: Session, events: Seq<Event>, wanted: Action)
    requires
        s.phase == Phase::Unconfigured,
        wanted != Action::Idle,
    ensures
        run(s, events) == s,
        requests(s, events, wanted) == 0,
    decreases events.len(),
{
    if events.len() > 0 {
        lemma_unconfigured_is_inert(next(s, events[0]), events.drop_first(), wanted);
    }
}

/// Over any sequence of events, from any session, the backend is stopped
/// and torn down at most once.
pub proof fn lemma_teardown_at_most_once(s: Session, events: Seq<Event>)
    ensures
        requests(s, events, Action::StopAndTeardown) <= 1,
    decreases events.len(),
{
    if events.len() > 0 {
        let after = next(s, events[0]);
        if action(s, events[0]) == Action::StopAndTeardown {
            lemma_stopped_is_final(after, events.drop_first(), Action::StopAndTeardown);
        } else {
            lemma_teardown_at_most_once(after, events.drop_first());
        }
    }
}

/// Whether the backend can no longer be asked to start: the session is not
/// waiting for the outcome of initialisation.
pub open spec fn start_spent(s: Session) -> bool {
    !(s.phase == Phase::Configured && !s.initialized)
}

/// Once the start has been asked for, or can no longer be, it is never
/// asked for again.
pub proof fn lemma_no_second_start(s: Session, events: Seq<Event>)
    requires
        start_spent(s),
    ensures
        requests(s, events, Action::StartBackend) == 0,
        start_spent(run(s, events)),
    decreases events.len(),
{
    if events.len() > 0 {
        lemma_no_second_start(next(s, events[0]), events.drop_first());
    }
}

/// Over any sequence of events, from any session, the backend is started
/// at most once.
pub proof fn lemma_start_at_most_once(s: Session, events: Seq<Event>)
    ensures
        requests(s, events, Action::StartBackend) <= 1,
    decreases events.len(),
{
    if events.len() > 0 {
        let after = next(s, events[0]);
        if start_spent(after) {
            lemma_no_second_start(after, events.drop_first());
        } else {
            lemma_start_at_most_once(after, events.drop_first());
        }
    }
}

/// A second stop request right after a first changes nothing and asks for
/// nothing.
pub proof fn lemma_stop_is_idempotent(s: Session)
    ensures
        next(next(s, Event::StopRequest), Event::StopRequest) == next(s, Event::StopRequest),
        action(next(s, Event::StopRequest), Event::StopRequest) == Action::Idle,
        action(s, Event::StopRequest) == Action::Idle,
{
}

/// Once a stop is requested, nothing brings the session back: it stays in
/// `StopRequested` until the first `Tick`, and is `Stopped` from then on.
pub proof fn lemma_stop_request_leads_to_stopped(s: Session, events: Seq<Event>)
    requires
        s.phase == Phase::StopRequested,
    ensures
        run(s, events).phase == if events.contains(Event::Tick) {
            Phase::Stopped
        } else {
            Phase::StopRequested
        },
        run(s, events).failure == s.failure,
        requests(s, events, Action::StopAndTeardown) == if events.contains(Event::Tick) {
            1nat
        } else {
            0nat
        },
    decreases events.len(),
{
    if events.len() > 0 {
        let rest = events.drop_first();
        let after = next(s, events[0]);
        assert(events.contains(Event::Tick) <==> (events[0] == Event::Tick || rest.contains(
            Event::Tick,
        ))) by {
            if rest.contains(Event::Tick) {
                let j = choose|j: int| 0 <= j < rest.len() && rest[j] == Event::Tick;
                assert(events[j + 1] == Event::Tick);
            }
            if events.contains(Event::Tick) && events[0] != Event::Tick {
                let j = choose|j: int| 0 <= j < events.len() && events[j] == Event::Tick;
                assert(rest[j - 1] == Event::Tick);
            }
        }
        if events[0] == Event::Tick {
            lemma_stopped_is_final(after, rest, Action::StopAndTeardown);
        } else {
            lemma_stop_request_leads_to_stopped(after, rest);
        }
    } else {
        assert(!events.contains(Event::Tick));
    }
}

/// A stop requested of a running session always completes: whatever
/// events follow, in whatever order, the session is stopped as soon as the
/// wait loop has turned once, and the backend is torn down exactly then,
/// once.
pub proof fn lemma_requested_stop_completes(s: Session, events: Seq<Event>)
    requires
        s.phase == Phase::Running || s.phase == Phase::StopRequested,
    ensures
        events.contains(Event::Tick) ==> run(next(s, Event::StopRequest), events).phase
            == Phase::Stopped,
        events.contains(Event::Tick) ==> requests(
            next(s, Event::StopRequest),
            events,
            Action::StopAndTeardown,
        ) == 1,
        !events.contains(Event::Tick) ==> run(next(s, Event::StopRequest), events).phase
            == Phase::StopRequested,
        run(next(s, Event::StopRequest), events).failure == s.failure,
{
    lemma_stop_request_leads_to_stopped(next(s, Event::StopRequest), events);
}

/// The session once the wait loop has looked at the stop flag.
pub open spec fn polled(s: Session, stop_requested: bool) -> Session {
    if stop_requested {
        next(s, Event::StopRequest)
    } else {
        s
    }
}

/// A running session whose stop flag is raised is stopped by the next turn
/// of the wait loop, with one teardown; with the flag down it stays
/// running and waits.
pub proof fn lemma_poll_stops_a_running_session(s: Session, stop_requested: bool)
    requires
        s.phase == Phase::Running,
    ensures
        next(polled(s, stop_requested), Event::Tick).phase == if stop_requested {
            Phase::Stopped
        } else {
            Phase::Running
        },
        action(polled(s, stop_requested), Event::Tick) == if stop_requested {
            Action::StopAndTeardown
        } else {
            Action::Wait
        },
        next(polled(s, stop_requested), Event::Tick).failure == s.failure,
{
}

/// Owns the order of the backend calls of one session.
pub struct Controller {
    session: Session,
    registered: Option<(Settings, Handlers)>,
}

impl View for Controller {
    type V = Session;

    closed spec fn view(&self) -> Session {
        self.session
    }
}

impl Controller {
    /// The settings and handlers that were registered, once configured.
    pub closed spec fn registration(&self) -> Option<(Settings, Handlers)> {
        self.registered
    }

    /// A controller that has not been configured.
    pub fn new() -> (controller: Controller)
        ensures
            controller@ == (Session {
                phase: Phase::Unconfigured,
                initialized: false,
                failure: None,
            }),
            controller.registration().is_none(),
    {
        Controller {
            session: Session { phase: Phase::Unconfigured, initialized: false, failure: None },
            registered: None,
        }
    }

    /// Validates the settings and registers the handlers.
    ///
    /// Consistent settings move the controller to `Configured` and ask for
    /// the backend to be initialised. Inconsistent settings are refused
    /// with the controller unchanged, so that nothing is asked of the
    /// backend.
    pub fn configure(&mut self, settings: Settings, handlers: Handlers) -> (outcome: Result<
        Action,
        ConfigError,
    >)
        requires
            old(self)@.phase == Phase::Unconfigured,
        ensures
            settings.consistent() ==> {
                &&& outcome == Ok::<Action, ConfigError>(Action::InitBackend)
                &&& final(self)@ == (Session { phase: Phase::Configured, ..old(self)@ })
                &&& final(self).registration() == Some((settings, handlers))
            },
            !settings.consistent() ==> {
                &&& outcome == Err::<Action, ConfigError>(ConfigError::NoOutputChannels)
                &&& final(self)@ == old(self)@
                &&& final(self).registration() == old(self).registration()
            },
    {
        match settings.validate() {
            Ok(()) => {
                self.session.phase = Phase::Configured;
                self.registered = Some((settings, handlers));
                Ok(Action::InitBackend)
            },
            Err(e) => Err(e),
        }
    }

    /// Takes one event and answers with what to do next.
    pub fn step(&mut self, event: Event) -> (asked: Action)
        ensures
            final(self)@ == next(old(self)@, event),
            asked == action(old(self)@, event),
            final(self).registration() == old(self).registration(),
    {
        let s = self.session;
        match (s.phase, event) {
            (Phase::Configured, Event::InitSucceeded) => {
                if !s.initialized {
                    self.session.initialized = true;
                    Action::StartBackend
                } else {
                    Action::Idle
                }
            },
            (Phase::Configured, Event::InitFailed) => {
                if !s.initialized {
                    self.session.phase = Phase::Stopped;
                    self.session.failure = Some(SessionError::BackendInit);
                }
                Action::Idle
            },
            (Phase::Configured, Event::StartSucceeded) => {
                if s.initialized {
                    self.session.phase = Phase::Running;
                    Action::Wait
                } else {
                    Action::Idle
                }
            },
            (Phase::Configured, Event::StartFailed) => {
                if s.initialized {
                    self.session.phase = Phase::Stopped;
                    self.session.failure = Some(SessionError::BackendStart);
                    Action::StopAndTeardown
                } else {
                    Action::Idle
                }
            },
            (Phase::Running, Event::StopRequest) => {
                self.session.phase = Phase::StopRequested;
                Action::Idle
            },
            (Phase::Running, Event::Tick) => Action::Wait,
            (Phase::StopRequested, Event::Tick) => {
                self.session.phase = Phase::Stopped;
                Action::StopAndTeardown
            },
            _ => Action::Idle,
        }
    }

    /// Requests a stop. It never blocks, and only the first request of a
    /// running session has an effect.
    pub fn stop(&mut self)
        ensures
            final(self)@ == next(old(self)@, Event::StopRequest),
            final(self).registration() == old(self).registration(),
    {
        let _ = self.step(Event::StopRequest);
    }

    /// One turn of the wait loop: takes the stop flag as it was read after
    /// the polling interval, passes on a stop request if it is raised, and
    /// then lets the interval count.
    pub fn poll(&mut self, stop_requested: bool) -> (asked: Action)
        ensures
            final(self)@ == next(polled(old(self)@, stop_requested), Event::Tick),
            asked == action(polled(old(self)@, stop_requested), Event::Tick),
            final(self).registration() == old(self).registration(),
    {
        if stop_requested {
            self.stop();
        }
        self.step(Event::Tick)
    }

    /// The controller's state.
    pub fn session(&self) -> (s: Session)
        ensures
            s == self@,
    {
        self.session
    }

    /// Where the session stands.
    pub fn phase(&self) -> (p: Phase)
        ensures
            p == self@.phase,
    {
        self.session.phase
    }

    /// The failure that ended the session, if one did.
    pub fn failure(&self) -> (f: Option<SessionError>)
        ensures
            f == self@.failure,
    {
        self.session.failure
    }

    /// The registered settings, once configured.
    pub fn settings(&self) -> (s: Option<Settings>)
        ensures
            s == match self.registration() {
                Some(pair) => Some(pair.0),
                None => None,
            },
    {
        match self.registered {
            Some(pair) => Some(pair.0),
            None => None,
        }
    }

    /// The registered handlers, once configured.
    pub fn handlers(&self) -> (h: Option<Handlers>)
        ensures
            h == match self.registration() {
                Some(pair) => Some(pair.1),
                None => None,
            },
    {
        match self.registered {
            Some(pair) => Some(pair.1),
            None => None,
        }
    }

    /// The process exit code of the session: 0 unless it failed, 1 if it
    /// did.
    pub fn exit_code(&self) -> (code: i32)
        ensures
            code == if self@.failure.is_none() {
                0i32
            } else {
                1i32
            },
    {
        match self.session.failure {
            None => 0,
            Some(_) => 1,
        }
    }
}

} // verus!
