//! The per-connection telemetry session: a state machine from state and
//! event to next state and action. The caller runs the timer, draws the
//! readings and writes to the connection; the session decides.

use vstd::prelude::*;

verus! {

/// Where a session stands.
#[derive(Clone, Copy, Debug, PartialEq, Eq, Structural)]
pub enum SessionState {
    /// Connected, timer not yet running.
    Created,
    /// Ticking; `frames_sent` frames have gone out.
    Active { frames_sent: u64 },
    /// Ended; nothing more is sent.
    Closed,
}

/// What happened to a session.
#[derive(Clone, Copy, Debug, PartialEq, Eq, Structural)]
pub enum SessionEvent {
    /// The connection is open and the timer starts.
    Started,
    /// One period of the timer has passed.
    Tick,
    /// The peer went away, or a frame could not be pushed.
    Disconnected,
    /// The process is shutting down.
    Shutdown,
}

/// What the caller is to do after an event.
#[derive(Clone, Copy, Debug, PartialEq, Eq, Structural)]
pub enum SessionAction {
    /// Nothing.
    Wait,
    /// Draw two readings and push them as one frame.
    SendFrame,
    /// Cancel the timer and drop the connection.
    Stop,
}

/// The transition table of a session.
pub open spec fn transition(s: SessionState, e: SessionEvent) -> (SessionState, SessionAction) {
    match (s, e) {
        (SessionState::Closed, _) => (SessionState::Closed, SessionAction::Wait),
        (_, SessionEvent::Disconnected) => (SessionState::Closed, SessionAction::Stop),
        (_, SessionEvent::Shutdown) => (SessionState::Closed, SessionAction::Stop),
        (SessionState::Created, SessionEvent::Started) => (
            SessionState::Active { frames_sent: 0 },
            SessionAction::Wait,
        ),
        (SessionState::Created, _) => (SessionState::Created, SessionAction::Wait),
        (SessionState::Active { frames_sent }, SessionEvent::Tick) => (
            SessionState::Active {
                frames_sent: if frames_sent < u64::MAX {
                    (frames_sent + 1) as u64
                } else {
                    frames_sent
                },
            },
            SessionAction::SendFrame,
        ),
        (SessionState::Active { frames_sent }, _) => (
            SessionState::Active { frames_sent },
            SessionAction::Wait,
        ),
    }
}

/// The number of frames a session in state `s` has sent.
pub open spec fn frames_of(s: SessionState) -> nat {
    match s {
        SessionState::Active { frames_sent } => frames_sent as nat,
        _ => 0,
    }
}

/// The state after each event of `events` in turn, from `s`.
pub open spec fn run(s: SessionState, events: Seq<SessionEvent>) -> SessionState
    decreases events.len(),
{
    if events.len() == 0 {
        s
    } else {
        transition(run(s, events.drop_last()), events.last()).0
    }
}

/// Decides the next state and the action for event `e` in state `s`.
pub fn step(s: SessionState, e: SessionEvent) -> (r: (SessionState, SessionAction))
    ensures
        r == transition(s, e),
{
    match (s, e) {
        (SessionState::Closed, _) => (SessionState::Closed, SessionAction::Wait),
        (_, SessionEvent::Disconnected) | (_, SessionEvent::Shutdown) => (
            SessionState::Closed,
            SessionAction::Stop,
        ),
        (SessionState::Created, SessionEvent::Started) => (
            SessionState::Active { frames_sent: 0 },
            SessionAction::Wait,
        ),
        (SessionState::Created, _) => (SessionState::Created, SessionAction::Wait),
        (SessionState::Active { frames_sent }, SessionEvent::Tick) => (
            SessionState::Active { frames_sent: frames_sent.saturating_add(1) },
            SessionAction::SendFrame,
        ),
        (SessionState::Active { frames_sent }, _) => (
            SessionState::Active { frames_sent },
            SessionAction::Wait,
        ),
    }
}

/// The frame pushed to a client: the two readings separated by `|`.
pub open spec fn frame_text(a: Seq<char>, b: Seq<char>) -> Seq<char> {
    a + seq!['|'] + b
}

/// Builds the frame for two readings already written as text.
pub fn telemetry_frame(a: &str, b: &str) -> (r: String)
    ensures
        r@ == frame_text(a@, b@),
{
    let mut r = String::from_str(a);
    proof {
        reveal_strlit("|");
    }
    r.append("|");
    r.append(b);
    r
}

/// Each tick of an active session sends one frame, and the count of frames
/// sent grows by exactly one.
pub proof fn lemma_tick_sends_one_more(s: SessionState)
    requires
        s is Active,
        frames_of(s) < u64::MAX,
    ensures
        transition(s, SessionEvent::Tick).1 == SessionAction::SendFrame,
        transition(s, SessionEvent::Tick).0 is Active,
        frames_of(transition(s, SessionEvent::Tick).0) == frames_of(s) + 1,
{
}

/// From the start of a session, `k` ticks leave it active with exactly `k`
/// frames sent: the count of frames strictly grows over time.
pub proof fn lemma_ticks_counted(k: nat)
    requires
        k < u64::MAX,
    ensures
        run(SessionState::Active { frames_sent: 0 }, Seq::new(k, |i: int| SessionEvent::Tick))
            is Active,
        frames_of(
            run(SessionState::Active { frames_sent: 0 }, Seq::new(k, |i: int| SessionEvent::Tick)),
        ) == k,
    decreases k,
{
    let ticks = Seq::new(k, |i: int| SessionEvent::Tick);
    if k > 0 {
        let shorter = Seq::new((k - 1) as nat, |i: int| SessionEvent::Tick);
        assert(ticks.drop_last() =~= shorter);
        lemma_ticks_counted((k - 1) as nat);
    }
}

/// Once closed, a session stays closed and asks for nothing, whatever
/// happens next.
pub proof fn lemma_closed_stays_closed(events: Seq<SessionEvent>)
    ensures
        run(SessionState::Closed, events) == SessionState::Closed,
    decreases events.len(),
{
    if events.len() > 0 {
        lemma_closed_stays_closed(events.drop_last());
    }
}

} // verus!
