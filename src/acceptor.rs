//! The decisions of the accept loop, as a state machine.
//!
//! Before each accept the loop waits until fewer than the admission limit of
//! connections are being handled. An accepted connection is admitted with a
//! token that its task holds until it ends. A failed accept is reported and
//! followed by a cooldown before acceptance resumes. The loop stops only when
//! the listener closes.
use vstd::prelude::*;

verus! {

/// The most connections that are handled at once.
pub const ADMISSION_LIMIT: usize = 100;

/// The pause after a failed accept, in milliseconds.
pub const COOLDOWN_MILLIS: u64 = 500;

/// Where the accept loop stands.
#[derive(Clone, Copy, Debug, PartialEq, Eq, Structural)]
pub enum AcceptorStage {
    AwaitingCapacity,
    Accepting,
    Admitting,
    CoolingDown,
    Closed,
}

/// The outcome of the last action of the accept loop.
#[derive(Clone, Copy, Debug, PartialEq, Eq, Structural)]
pub enum AcceptEvent {
    /// Fewer connections than the limit are being handled.
    CapacityFree,
    /// A connection was accepted.
    Accepted,
    /// Accepting failed.
    AcceptFailed,
    /// The accepted connection holds its token and has its own task.
    Admitted,
    /// The cooldown is over.
    CooldownElapsed,
    /// The listener yields no more connections.
    ListenerClosed,
}

/// What the accept loop is to do next.
#[derive(Clone, Copy, Debug, PartialEq, Eq, Structural)]
pub enum AcceptAction {
    /// Wait until fewer connections than the limit are being handled.
    AwaitCapacity,
    /// Accept the next connection.
    Accept,
    /// Give the accepted connection a token and spawn its task.
    Admit,
    /// Report the accept error, then pause for the given milliseconds.
    ReportAndPause(u64),
    /// The listener is closed: stop.
    Stop,
    /// The event was not one that the current stage waits for.
    Ignore,
}

/// The transition of the accept loop on one event.
pub open spec fn spec_accept_step(
    stage: AcceptorStage,
    event: AcceptEvent,
) -> (AcceptorStage, AcceptAction) {
    match (stage, event) {
        (AcceptorStage::AwaitingCapacity, AcceptEvent::CapacityFree) => (
            AcceptorStage::Accepting,
            AcceptAction::Accept,
        ),
        (AcceptorStage::Accepting, AcceptEvent::Accepted) => (
            AcceptorStage::Admitting,
            AcceptAction::Admit,
        ),
        (AcceptorStage::Accepting, AcceptEvent::AcceptFailed) => (
            AcceptorStage::CoolingDown,
            AcceptAction::ReportAndPause(COOLDOWN_MILLIS),
        ),
        (AcceptorStage::Accepting, AcceptEvent::ListenerClosed) => (
            AcceptorStage::Closed,
            AcceptAction::Stop,
        ),
        (AcceptorStage::Admitting, AcceptEvent::Admitted) => (
            AcceptorStage::AwaitingCapacity,
            AcceptAction::AwaitCapacity,
        ),
        (AcceptorStage::CoolingDown, AcceptEvent::CooldownElapsed) => (
            AcceptorStage::Accepting,
            AcceptAction::Accept,
        ),
        _ => (stage, AcceptAction::Ignore),
    }
}

/// The accept loop's state.
#[derive(Debug)]
pub struct Acceptor {
    pub stage: AcceptorStage,
}

impl Acceptor {
    /// A fresh accept loop, and its first action: wait for capacity.
    pub fn start() -> (r: (Acceptor, AcceptAction))
        ensures
            r.0.stage == AcceptorStage::AwaitingCapacity,
            r.1 == AcceptAction::AwaitCapacity,
    {
        (Acceptor { stage: AcceptorStage::AwaitingCapacity }, AcceptAction::AwaitCapacity)
    }

    /// Takes the outcome of the last action and decides the next one.
    pub fn step(&mut self, event: AcceptEvent) -> (r: AcceptAction)
        ensures
            (final(self).stage, r) == spec_accept_step(old(self).stage, event),
    {
        let (stage, action) = match (self.stage, event) {
            (AcceptorStage::AwaitingCapacity, AcceptEvent::CapacityFree) => (
                AcceptorStage::Accepting,
                AcceptAction::Accept,
            ),
            (AcceptorStage::Accepting, AcceptEvent::Accepted) => (
                AcceptorStage::Admitting,
                AcceptAction::Admit,
            ),
            (AcceptorStage::Accepting, AcceptEvent::AcceptFailed) => (
                AcceptorStage::CoolingDown,
                AcceptAction::ReportAndPause(COOLDOWN_MILLIS),
            ),
            (AcceptorStage::Accepting, AcceptEvent::ListenerClosed) => (
                AcceptorStage::Closed,
                AcceptAction::Stop,
            ),
            (AcceptorStage::Admitting, AcceptEvent::Admitted) => (
                AcceptorStage::AwaitingCapacity,
                AcceptAction::AwaitCapacity,
            ),
            (AcceptorStage::CoolingDown, AcceptEvent::CooldownElapsed) => (
                AcceptorStage::Accepting,
                AcceptAction::Accept,
            ),
            (stage, _) => (stage, AcceptAction::Ignore),
        };
        self.stage = stage;
        action
    }

    /// Whether the listener has closed and the loop is over.
    pub fn is_closed(&self) -> (r: bool)
        ensures
            r == (self.stage == AcceptorStage::Closed),
    {
        matches!(self.stage, AcceptorStage::Closed)
    }
}

} // verus!
