//! The decisions of the TCP tunnel relay.
//!
//! The relay listens on a local port and pairs every inbound connection
//! with a new outbound connection to one remote target. The sockets are
//! driven from outside of this crate; what is decided here is what the
//! accept loop and each forwarding session do after each event.

use vstd::prelude::*;
use crate::text::decimal;
use crate::text::glue;
use crate::text::opt_text;
use crate::text::u16_text;

verus! {

/// A relay from a local port to a remote `host:port` target.
pub struct TcpProxy {
    local_port: u16,
    remote: String,
}

/// How an accept loop ended.
#[derive(Clone, Copy, PartialEq, Eq, Structural, Debug)]
pub enum RelayOutcome {
    /// The cancel signal was seen; no further connection is accepted.
    Cancelled,
    /// The local port could not be bound; the relay never started.
    BindFailed,
    /// Accepting a connection failed.
    AcceptFailed,
}

/// Where an accept loop stands.
#[derive(Clone, Copy, PartialEq, Eq, Structural, Debug)]
pub enum RelayPhase {
    /// The listener is being bound.
    Binding,
    /// The loop waits for the cancel signal or an inbound connection.
    Accepting,
    /// A connection was handed to a session; the loop sits out the poll
    /// delay.
    Pausing,
    /// The loop has ended.
    Stopped(RelayOutcome),
}

/// What happened to an accept loop.
#[derive(Clone, Copy, PartialEq, Eq, Structural, Debug)]
pub enum RelayEvent {
    Bound,
    BindFailed,
    CancelRequested,
    ClientAccepted,
    AcceptFailed,
    DelayElapsed,
}

/// What an accept loop is to do next.
#[derive(Clone, Copy, PartialEq, Eq, Structural, Debug)]
pub enum RelayAction {
    /// Wait for the cancel signal or the next inbound connection,
    /// whichever comes first.
    AwaitClient,
    /// Hand the accepted connection to a forwarding session of its own,
    /// then wait for the poll delay.
    ForwardThenPause,
    /// Leave the loop with the outcome of the phase.
    Halt,
    /// The event does not belong to the phase; go on as before.
    Ignore,
}

/// The phase that follows `phase` on `event`.
///
/// A bound listener accepts. While accepting, a cancel request ends the
/// loop, an inbound connection leads to a pause, and a failed accept ends
/// the loop. The pause ends when the delay has elapsed, and only then. A
/// loop that has ended stays so. An event that the phase does not wait for
/// changes nothing.
pub open spec fn next_phase(phase: RelayPhase, event: RelayEvent) -> RelayPhase {
    match (phase, event) {
        (RelayPhase::Binding, RelayEvent::Bound) => RelayPhase::Accepting,
        (RelayPhase::Binding, RelayEvent::BindFailed) => RelayPhase::Stopped(
            RelayOutcome::BindFailed,
        ),
        (RelayPhase::Accepting, RelayEvent::CancelRequested) => RelayPhase::Stopped(
            RelayOutcome::Cancelled,
        ),
        (RelayPhase::Accepting, RelayEvent::ClientAccepted) => RelayPhase::Pausing,
        (RelayPhase::Accepting, RelayEvent::AcceptFailed) => RelayPhase::Stopped(
            RelayOutcome::AcceptFailed,
        ),
        (RelayPhase::Pausing, RelayEvent::DelayElapsed) => RelayPhase::Accepting,
        _ => phase,
    }
}

/// What the loop is to do when `event` arrives in `phase`.
pub open spec fn next_action(phase: RelayPhase, event: RelayEvent) -> RelayAction {
    match (phase, event) {
        (RelayPhase::Stopped(_), _) => RelayAction::Halt,
        (RelayPhase::Binding, RelayEvent::Bound) => RelayAction::AwaitClient,
        (RelayPhase::Binding, RelayEvent::BindFailed) => RelayAction::Halt,
        (RelayPhase::Accepting, RelayEvent::CancelRequested) => RelayAction::Halt,
        (RelayPhase::Accepting, RelayEvent::ClientAccepted) => RelayAction::ForwardThenPause,
        (RelayPhase::Accepting, RelayEvent::AcceptFailed) => RelayAction::Halt,
        (RelayPhase::Pausing, RelayEvent::DelayElapsed) => RelayAction::AwaitClient,
        _ => RelayAction::Ignore,
    }
}

/// The phase after a run of events, the first of `events` first.
pub open spec fn phase_after(phase: RelayPhase, events: Seq<RelayEvent>) -> RelayPhase
    decreases events.len(),
{
    if events.len() == 0 {
        phase
    } else {
        next_phase(phase_after(phase, events.drop_last()), events.last())
    }
}

/// How a forwarding session ended.
#[derive(Clone, Copy, PartialEq, Eq, Structural, Debug)]
pub enum SessionOutcome {
    /// One side reached the end of its stream.
    Completed,
    /// The remote target could not be reached.
    ConnectFailed,
    /// Copying failed on one of the two legs.
    CopyFailed,
}

/// Where a forwarding session stands.
#[derive(Clone, Copy, PartialEq, Eq, Structural, Debug)]
pub enum SessionPhase {
    /// The outbound connection is being opened.
    Connecting,
    /// Bytes are copied in both directions.
    Relaying,
    /// The session is over.
    Closed(SessionOutcome),
}

/// What happened to a forwarding session.
#[derive(Clone, Copy, PartialEq, Eq, Structural, Debug)]
pub enum SessionEvent {
    Connected,
    ConnectFailed,
    StreamEnded,
    StreamFailed,
}

/// The phase of a session after `event`.
///
/// An opened outbound connection starts the copying; a refused one ends the
/// session. The copying ends with the first end of stream or error on
/// either leg. A session that is over stays so, and an event that the phase
/// does not wait for changes nothing.
pub open spec fn next_session_phase(phase: SessionPhase, event: SessionEvent) -> SessionPhase {
    match (phase, event) {
        (SessionPhase::Connecting, SessionEvent::Connected) => SessionPhase::Relaying,
        (SessionPhase::Connecting, SessionEvent::ConnectFailed) => SessionPhase::Closed(
            SessionOutcome::ConnectFailed,
        ),
        (SessionPhase::Relaying, SessionEvent::StreamEnded) => SessionPhase::Closed(
            SessionOutcome::Completed,
        ),
        (SessionPhase::Relaying, SessionEvent::StreamFailed) => SessionPhase::Closed(
            SessionOutcome::CopyFailed,
        ),
        _ => phase,
    }
}

/// The address on which every relay listens.
pub open spec fn loopback_text() -> Seq<char> {
    "127.0.0.1"@
}

impl TcpProxy {
    /// The local port of the relay.
    pub closed spec fn port(self) -> u16 {
        self.local_port
    }

    /// The remote target of the relay.
    pub closed spec fn target(self) -> Seq<char> {
        self.remote@
    }

    /// A relay from `local_port` to `remote`.
    pub fn new(local_port: u16, remote: String) -> (proxy: TcpProxy)
        ensures
            proxy.port() == local_port,
            proxy.target() == remote@,
    {
        TcpProxy { local_port, remote }
    }

    /// The local port on which the relay listens.
    pub fn local_port(&self) -> (port: u16)
        ensures
            port == self.port(),
    {
        self.local_port
    }

    /// The `host:port` target to which every session connects.
    pub fn remote(&self) -> (target: &str)
        ensures
            target@ == self.target(),
    {
        self.remote.as_str()
    }

    /// The host on which the relay listens: the loopback address, whatever
    /// the relay.
    pub fn listen_host(&self) -> (host: &'static str)
        ensures
            host@ == loopback_text(),
    {
        "127.0.0.1"
    }

    /// What is said in front of the cause when an accept loop ended with
    /// `outcome`: a failed bind names the address; a failed accept is
    /// passed on as it is, and a cancel request is no failure.
    pub open spec fn failure_context_text(self, outcome: RelayOutcome) -> Option<Seq<char>> {
        match outcome {
            RelayOutcome::BindFailed => Some(
                "bind to 127.0.0.1:"@ + decimal(self.port() as int),
            ),
            _ => None,
        }
    }

    /// The words that go in front of the cause of a failed accept loop.
    pub fn failure_context(&self, outcome: RelayOutcome) -> (message: Option<String>)
        ensures
            opt_text(message) == self.failure_context_text(outcome),
    {
        match outcome {
            RelayOutcome::BindFailed => {
                let port = u16_text(self.local_port);
                Some(glue("bind to 127.0.0.1:", port.as_str()))
            },
            _ => None,
        }
    }

    /// What is said in front of the cause when a session ended with
    /// `outcome`; nothing where it ran to the end of a stream.
    pub open spec fn session_failure_text(self, outcome: SessionOutcome) -> Option<Seq<char>> {
        match outcome {
            SessionOutcome::Completed => None,
            SessionOutcome::ConnectFailed => Some("connect to "@ + self.target()),
            SessionOutcome::CopyFailed => Some("copy data between client and provider"@),
        }
    }

    /// The words that go in front of the cause of a failed session. The
    /// failure is reported and goes no further: no outcome of a session is
    /// an event of the accept loop.
    pub fn session_failure_context(&self, outcome: SessionOutcome) -> (message: Option<String>)
        ensures
            opt_text(message) == self.session_failure_text(outcome),
    {
        match outcome {
            SessionOutcome::Completed => None,
            SessionOutcome::ConnectFailed => Some(glue("connect to ", self.remote.as_str())),
            SessionOutcome::CopyFailed => Some(
                String::from_str("copy data between client and provider"),
            ),
        }
    }
}

impl RelayPhase {
    /// The phase in which every accept loop starts.
    pub fn start() -> (phase: RelayPhase)
        ensures
            phase == RelayPhase::Binding,
    {
        RelayPhase::Binding
    }
}

impl SessionPhase {
    /// The phase in which every forwarding session starts.
    pub fn start() -> (phase: SessionPhase)
        ensures
            phase == SessionPhase::Connecting,
    {
        SessionPhase::Connecting
    }
}

/// Decides what an accept loop does when `event` arrives in `phase`.
pub fn relay_step(phase: RelayPhase, event: RelayEvent) -> (next: (RelayPhase, RelayAction))
    ensures
        next.0 == next_phase(phase, event),
        next.1 == next_action(phase, event),
{
    match phase {
        RelayPhase::Stopped(_) => (phase, RelayAction::Halt),
        RelayPhase::Binding => match event {
            RelayEvent::Bound => (RelayPhase::Accepting, RelayAction::AwaitClient),
            RelayEvent::BindFailed => (
                RelayPhase::Stopped(RelayOutcome::BindFailed),
                RelayAction::Halt,
            ),
            _ => (phase, RelayAction::Ignore),
        },
        RelayPhase::Accepting => match event {
            RelayEvent::CancelRequested => (
                RelayPhase::Stopped(RelayOutcome::Cancelled),
                RelayAction::Halt,
            ),
            RelayEvent::ClientAccepted => (RelayPhase::Pausing, RelayAction::ForwardThenPause),
            RelayEvent::AcceptFailed => (
                RelayPhase::Stopped(RelayOutcome::AcceptFailed),
                RelayAction::Halt,
            ),
            _ => (phase, RelayAction::Ignore),
        },
        RelayPhase::Pausing => match event {
            RelayEvent::DelayElapsed => (RelayPhase::Accepting, RelayAction::AwaitClient),
            _ => (phase, RelayAction::Ignore),
        },
    }
}

/// Decides where a forwarding session stands after `event`.
pub fn session_step(phase: SessionPhase, event: SessionEvent) -> (next: SessionPhase)
    ensures
        next == next_session_phase(phase, event),
{
    match phase {
        SessionPhase::Connecting => match event {
            SessionEvent::Connected => SessionPhase::Relaying,
            SessionEvent::ConnectFailed => SessionPhase::Closed(SessionOutcome::ConnectFailed),
            _ => phase,
        },
        SessionPhase::Relaying => match event {
            SessionEvent::StreamEnded => SessionPhase::Closed(SessionOutcome::Completed),
            SessionEvent::StreamFailed => SessionPhase::Closed(SessionOutcome::CopyFailed),
            _ => phase,
        },
        SessionPhase::Closed(_) => phase,
    }
}

/// An accept loop that has ended accepts nothing any more: whatever events
/// follow, it stays ended with the same outcome.
pub proof fn lemma_stopped_stays_stopped(outcome: RelayOutcome, events: Seq<RelayEvent>)
    ensures
        phase_after(RelayPhase::Stopped(outcome), events) == RelayPhase::Stopped(outcome),
    decreases events.len(),
{
    if events.len() > 0 {
        lemma_stopped_stays_stopped(outcome, events.drop_last());
    }
}

/// A connection is handed to a session exactly when one was accepted while
/// the loop was accepting, and the loop then pauses: the pause follows
/// every accepted connection, and nothing but the elapsed delay ends it.
pub proof fn lemma_pause_follows_every_accept(phase: RelayPhase, event: RelayEvent)
    ensures
        next_action(phase, event) == RelayAction::ForwardThenPause <==> (phase
            == RelayPhase::Accepting && event == RelayEvent::ClientAccepted),
        next_action(phase, event) == RelayAction::ForwardThenPause ==> next_phase(phase, event)
            == RelayPhase::Pausing,
        phase == RelayPhase::Pausing && event != RelayEvent::DelayElapsed ==> next_phase(
            phase,
            event,
        ) == RelayPhase::Pausing,
{
}

/// A failed bind is fatal: the loop ends at once and never accepts.
pub proof fn lemma_bind_failure_is_fatal(events: Seq<RelayEvent>)
    ensures
        phase_after(next_phase(RelayPhase::Binding, RelayEvent::BindFailed), events)
            == RelayPhase::Stopped(RelayOutcome::BindFailed),
{
    lemma_stopped_stays_stopped(RelayOutcome::BindFailed, events);
}

/// The loop is left exactly when it has ended.
pub proof fn lemma_halt_means_stopped(phase: RelayPhase, event: RelayEvent)
    ensures
        next_action(phase, event) == RelayAction::Halt <==> next_phase(phase, event) is Stopped,
{
}

} // verus!
