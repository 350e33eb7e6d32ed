use vstd::prelude::*;

verus! {

/// The phase of the server's life.
#[derive(Debug, Clone, Copy, PartialEq, Eq, Structural)]
pub enum Phase {
    /// Configured, the listener not yet bound.
    Starting,
    /// Accepting and serving connections.
    Listening,
    /// No longer accepting; waiting for the requests in flight to finish.
    ShuttingDown,
    /// Every request has finished; the process exits successfully.
    Stopped,
    /// A fatal error happened; the process exits with an error.
    Failed,
}

/// What happened to the server.
#[derive(Debug, Clone, Copy, PartialEq, Eq, Structural)]
pub enum Event {
    /// The configuration was refused.
    ConfigRejected,
    /// The listener was bound.
    Bound,
    /// The listener could not be bound.
    BindFailed,
    /// The interrupt signal was received.
    Interrupt,
    /// Waiting for the interrupt signal failed.
    SignalFailed,
    /// The serving loop returned: no connection is left open.
    Drained,
}

/// What the process has to do next.
#[derive(Debug, Clone, Copy, PartialEq, Eq, Structural)]
pub enum Action {
    /// Keep going as before.
    Continue,
    /// Stop accepting connections and let those in flight finish.
    BeginShutdown,
    /// Exit successfully.
    Exit,
    /// Exit with an error.
    Abort,
}

/// The server's lifecycle, driven by the events that the process observes.
#[derive(Debug, Clone, Copy, PartialEq, Eq, Structural)]
pub struct Lifecycle {
    pub phase: Phase,
}

/// The transition table. Any pair it does not name leaves the phase unchanged
/// and asks for nothing.
pub open spec fn next_spec(phase: Phase, event: Event) -> (Phase, Action) {
    match (phase, event) {
        (Phase::Starting, Event::Bound) => (Phase::Listening, Action::Continue),
        (Phase::Starting, Event::BindFailed) => (Phase::Failed, Action::Abort),
        (Phase::Starting, Event::ConfigRejected) => (Phase::Failed, Action::Abort),
        (Phase::Listening, Event::Interrupt) => (Phase::ShuttingDown, Action::BeginShutdown),
        (Phase::Listening, Event::SignalFailed) => (Phase::Failed, Action::Abort),
        (Phase::Listening, Event::Drained) => (Phase::Failed, Action::Abort),
        (Phase::ShuttingDown, Event::Drained) => (Phase::Stopped, Action::Exit),
        (Phase::ShuttingDown, Event::SignalFailed) => (Phase::Failed, Action::Abort),
        _ => (phase, Action::Continue),
    }
}

/// Whether the server accepts new connections in a phase.
pub open spec fn accepting_spec(phase: Phase) -> bool {
    phase == Phase::Listening
}

impl Lifecycle {
    /// A server that has not bound its listener yet.
    pub fn new() -> (r: Lifecycle)
        ensures
            r.phase == Phase::Starting,
    {
        Lifecycle { phase: Phase::Starting }
    }

    /// Whether the server accepts new connections.
    pub fn accepting(&self) -> (r: bool)
        ensures
            r == accepting_spec(self.phase),
    {
        match self.phase {
            Phase::Listening => true,
            _ => false,
        }
    }

    /// Takes the server to its next phase on `event`, and says what to do.
    pub fn step(&mut self, event: Event) -> (r: Action)
        ensures
            (final(self).phase, r) == next_spec(old(self).phase, event),
    {
        let (phase, action) = match (self.phase, event) {
            (Phase::Starting, Event::Bound) => (Phase::Listening, Action::Continue),
            (Phase::Starting, Event::BindFailed) => (Phase::Failed, Action::Abort),
            (Phase::Starting, Event::ConfigRejected) => (Phase::Failed, Action::Abort),
            (Phase::Listening, Event::Interrupt) => (Phase::ShuttingDown, Action::BeginShutdown),
            (Phase::Listening, Event::SignalFailed) => (Phase::Failed, Action::Abort),
            (Phase::Listening, Event::Drained) => (Phase::Failed, Action::Abort),
            (Phase::ShuttingDown, Event::Drained) => (Phase::Stopped, Action::Exit),
            (Phase::ShuttingDown, Event::SignalFailed) => (Phase::Failed, Action::Abort),
            (p, _) => (p, Action::Continue),
        };
        self.phase = phase;
        action
    }
}

/// The server stops accepting as soon as the interrupt arrives, and exits
/// successfully only once the serving loop has drained after that interrupt:
/// a successful exit comes from no phase but shutting down, on no event but the
/// drain.
pub proof fn lemma_exit_only_after_drain(phase: Phase, event: Event)
    ensures
        phase == Phase::Listening && event == Event::Interrupt ==> {
            &&& next_spec(phase, event).1 == Action::BeginShutdown
            &&& !accepting_spec(next_spec(phase, event).0)
        },
        next_spec(phase, event).1 == Action::Exit ==> phase == Phase::ShuttingDown && event
            == Event::Drained,
        next_spec(phase, event).0 == Phase::Stopped && phase != Phase::Stopped ==> phase
            == Phase::ShuttingDown && event == Event::Drained,
        phase == Phase::ShuttingDown ==> next_spec(phase, event).0 != Phase::Listening,
{
}

/// A refused configuration ends the process before the listener is bound, and
/// an ended process stays ended: no event brings it back to listening.
pub proof fn lemma_end_is_final(phase: Phase, event: Event)
    ensures
        next_spec(Phase::Starting, Event::ConfigRejected) == (Phase::Failed, Action::Abort),
        phase == Phase::Failed ==> next_spec(phase, event).0 == Phase::Failed,
        phase == Phase::Stopped ==> next_spec(phase, event).0 == Phase::Stopped,
        phase == Phase::Failed || phase == Phase::Stopped ==> next_spec(phase, event).1
            == Action::Continue,
{
}

/// With nothing in flight the drain is immediate, so an interrupt followed by the
/// drain ends the process successfully: the interrupt alone leads to exit.
pub proof fn lemma_interrupt_then_drain_exits()
    ensures
        next_spec(next_spec(Phase::Listening, Event::Interrupt).0, Event::Drained) == (
            Phase::Stopped,
            Action::Exit,
        ),
{
}

} // verus!
