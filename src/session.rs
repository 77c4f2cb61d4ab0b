//! The session lifecycle: Idle, Negotiating, Starting (both streams
//! built, being started), Streaming, Draining, and back to Idle. The controller holds the session flag and decides, for each
//! event, what the worker thread does next.

use vstd::prelude::*;

verus! {

/// The stage a session is in.
#[derive(Clone, Copy, Debug, PartialEq, Eq, Structural)]
pub enum Phase {
    Idle,
    Negotiating,
    /// Negotiated, recorders created and both streams built; the streams
    /// are being started.
    Starting,
    Streaming,
    Draining,
}

/// What happened: a command, or a report from the worker thread.
#[derive(Clone, Copy, Debug, PartialEq, Eq, Structural)]
pub enum Event {
    /// The start command.
    Start,
    /// The stop command.
    Stop,
    /// Devices and formats were negotiated, both recorders created and both
    /// streams built, not yet started.
    Negotiated,
    /// Negotiation, recorder creation or stream construction failed.
    NegotiationFailed,
    /// Both streams were started, the input first.
    StreamsStarted,
    /// A stream failed to start.
    StartFailed,
    /// One polling interval has passed.
    Poll,
    /// Both streams are paused.
    Paused,
}

/// What is to be done in answer to an event.
#[derive(Clone, Copy, Debug, PartialEq, Eq, Structural)]
pub enum Action {
    /// Spawn the worker thread, which negotiates the session.
    SpawnWorker,
    /// Refuse the command: a session is already under way.
    Reject,
    /// Start the input stream, then the output stream.
    StartStreams,
    /// Give up the session: drop whatever streams were built, close the
    /// recordings; the worker thread then exits.
    Abort,
    /// Sleep one polling interval, then poll again.
    Sleep,
    /// Pause the input stream, then the output stream.
    PauseStreams,
    /// Finalise both recordings; the worker thread then exits.
    FinalizeRecordings,
    /// Nothing to do.
    Nothing,
}

/// The controller's next phase, session flag and action after `event`.
pub open spec fn transition(phase: Phase, running: bool, event: Event) -> (Phase, bool, Action) {
    match event {
        Event::Start => if phase == Phase::Idle {
            (Phase::Negotiating, true, Action::SpawnWorker)
        } else {
            (phase, running, Action::Reject)
        },
        Event::Stop => (phase, false, Action::Nothing),
        Event::Negotiated => if phase == Phase::Negotiating {
            if running {
                (Phase::Starting, running, Action::StartStreams)
            } else {
                (Phase::Idle, false, Action::Abort)
            }
        } else {
            (phase, running, Action::Nothing)
        },
        Event::StreamsStarted => if phase == Phase::Starting {
            (Phase::Streaming, running, Action::Nothing)
        } else {
            (phase, running, Action::Nothing)
        },
        Event::StartFailed => if phase == Phase::Starting {
            (Phase::Idle, false, Action::Abort)
        } else {
            (phase, running, Action::Nothing)
        },
        Event::NegotiationFailed => if phase == Phase::Negotiating {
            (Phase::Idle, false, Action::Abort)
        } else {
            (phase, running, Action::Nothing)
        },
        Event::Poll => if phase == Phase::Streaming {
            if running {
                (phase, running, Action::Sleep)
            } else {
                (Phase::Draining, false, Action::PauseStreams)
            }
        } else {
            (phase, running, Action::Nothing)
        },
        Event::Paused => if phase == Phase::Draining {
            (Phase::Idle, false, Action::FinalizeRecordings)
        } else {
            (phase, running, Action::Nothing)
        },
    }
}

/// The one session of the process and its flag.
pub struct SessionController {
    phase: Phase,
    running: bool,
}

impl SessionController {
    /// The stage the session is in.
    pub closed spec fn phase_spec(&self) -> Phase {
        self.phase
    }

    /// The session flag: set by the start command, cleared by the stop
    /// command.
    pub closed spec fn running_spec(&self) -> bool {
        self.running
    }

    /// An idle controller with its flag cleared.
    pub fn new() -> (r: SessionController)
        ensures
            r.phase_spec() == Phase::Idle,
            !r.running_spec(),
    {
        SessionController { phase: Phase::Idle, running: false }
    }

    /// The stage the session is in.
    pub fn phase(&self) -> (r: Phase)
        ensures
            r == self.phase_spec(),
    {
        self.phase
    }

    /// Whether the session flag is set.
    pub fn is_running(&self) -> (r: bool)
        ensures
            r == self.running_spec(),
    {
        self.running
    }

    /// Takes in one event and says what to do about it.
    pub fn step(&mut self, event: Event) -> (r: Action)
        ensures
            (final(self).phase_spec(), final(self).running_spec(), r) == transition(
                old(self).phase_spec(),
                old(self).running_spec(),
                event,
            ),
    {
        let phase = self.phase;
        let (next, running, action) = match event {
            Event::Start => if phase == Phase::Idle {
                (Phase::Negotiating, true, Action::SpawnWorker)
            } else {
                (phase, self.running, Action::Reject)
            },
            Event::Stop => (phase, false, Action::Nothing),
            Event::Negotiated => if phase == Phase::Negotiating {
                if self.running {
                    (Phase::Starting, true, Action::StartStreams)
                } else {
                    (Phase::Idle, false, Action::Abort)
                }
            } else {
                (phase, self.running, Action::Nothing)
            },
            Event::StreamsStarted => if phase == Phase::Starting {
                (Phase::Streaming, self.running, Action::Nothing)
            } else {
                (phase, self.running, Action::Nothing)
            },
            Event::StartFailed => if phase == Phase::Starting {
                (Phase::Idle, false, Action::Abort)
            } else {
                (phase, self.running, Action::Nothing)
            },
            Event::NegotiationFailed => if phase == Phase::Negotiating {
                (Phase::Idle, false, Action::Abort)
            } else {
                (phase, self.running, Action::Nothing)
            },
            Event::Poll => if phase == Phase::Streaming {
                if self.running {
                    (phase, true, Action::Sleep)
                } else {
                    (Phase::Draining, false, Action::PauseStreams)
                }
            } else {
                (phase, self.running, Action::Nothing)
            },
            Event::Paused => if phase == Phase::Draining {
                (Phase::Idle, false, Action::FinalizeRecordings)
            } else {
                (phase, self.running, Action::Nothing)
            },
        };
        self.phase = next;
        self.running = running;
        action
    }
}

/// A stop command during streaming is acted on at the next poll: that
/// poll pauses both streams, and once they are paused the recordings are
/// finalised and the session is idle again, with its flag cleared.
pub proof fn lemma_stop_ends_session(running: bool)
    ensures
        ({
            let (p1, r1, a1) = transition(Phase::Streaming, running, Event::Stop);
            let (p2, r2, a2) = transition(p1, r1, Event::Poll);
            let (p3, r3, a3) = transition(p2, r2, Event::Paused);
            &&& p1 == Phase::Streaming
            &&& a2 == Action::PauseStreams
            &&& p2 == Phase::Draining
            &&& a3 == Action::FinalizeRecordings
            &&& p3 == Phase::Idle
            &&& !r3
        }),
{
}

/// While the flag stays set, a streaming session only sleeps between
/// polls; only a stop command leads out of streaming.
pub proof fn lemma_streaming_until_stopped()
    ensures
        transition(Phase::Streaming, true, Event::Poll) == (Phase::Streaming, true, Action::Sleep),
        transition(Phase::Streaming, true, Event::Start) == (
            Phase::Streaming,
            true,
            Action::Reject,
        ),
{
}

/// A start command is accepted only when no session is under way, and a
/// finished session can be started again.
pub proof fn lemma_one_session_at_a_time(phase: Phase, running: bool)
    ensures
        transition(phase, running, Event::Start).2 == Action::SpawnWorker <==> phase
            == Phase::Idle,
        transition(Phase::Draining, running, Event::Paused).0 == Phase::Idle,
{
}

/// A session reaches Streaming only from Starting, on the report that
/// both streams were started: never straight from negotiation.
pub proof fn lemma_streaming_only_after_start(phase: Phase, running: bool, event: Event)
    ensures
        transition(phase, running, event).0 == Phase::Streaming && phase != Phase::Streaming
            ==> phase == Phase::Starting && event == Event::StreamsStarted,
        transition(phase, running, event).2 == Action::StartStreams ==> phase
            == Phase::Negotiating && event == Event::Negotiated && running,
{
}

/// A session whose setup fails, in negotiation or when its streams are
/// started, is aborted and left idle with its flag cleared; so is one
/// stopped before its streams are started.
pub proof fn lemma_failed_setup_aborts(running: bool)
    ensures
        transition(Phase::Negotiating, running, Event::NegotiationFailed) == (
            Phase::Idle,
            false,
            Action::Abort,
        ),
        transition(Phase::Starting, running, Event::StartFailed) == (
            Phase::Idle,
            false,
            Action::Abort,
        ),
        transition(Phase::Negotiating, false, Event::Negotiated) == (
            Phase::Idle,
            false,
            Action::Abort,
        ),
{
}

} // verus!
