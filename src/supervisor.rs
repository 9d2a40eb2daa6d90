//! Keeps the wireless association alive: the decisions of the connectivity
//! task as a state machine, whose actions the caller performs.
use vstd::prelude::*;

verus! {

/// Pause before associating again after a disconnect or a failed attempt, in ms.
pub const RECONNECT_BACKOFF_MS: u64 = 5000;

/// What the supervisor waits for.
#[derive(Clone, Copy, Debug, PartialEq, Eq, Structural)]
pub enum LinkPhase {
    /// The association state.
    CheckingAssociation,
    /// A disconnect of the current association.
    Associated,
    /// The back-off after a disconnect; the radio is checked next.
    BackoffAfterDisconnect,
    /// Whether the radio is started.
    CheckingRadio,
    /// The radio to start.
    Starting,
    /// The association attempt.
    Connecting,
    /// The back-off after a failed attempt; the association is checked next.
    BackoffAfterFailure,
}

/// What came of the last action.
#[derive(Clone, Copy, Debug, PartialEq, Eq, Structural)]
pub enum LinkEvent {
    /// Whether the station is associated.
    Association(bool),
    /// The association was lost.
    Disconnected,
    /// The back-off is over.
    Waited,
    /// Whether the radio is started.
    Radio(bool),
    /// The radio has been configured and started.
    RadioStarted,
    /// Whether the association attempt succeeded.
    Attempt(bool),
}

/// What the caller does next.
#[derive(Clone, Copy, Debug, PartialEq, Eq, Structural)]
pub enum LinkAction {
    QueryAssociation,
    AwaitDisconnect,
    Sleep(u64),
    QueryRadio,
    StartRadio,
    Connect,
}

/// Whether `e` is the event that the phase waits for.
pub open spec fn link_accepts_spec(p: LinkPhase, e: LinkEvent) -> bool {
    match (p, e) {
        (LinkPhase::CheckingAssociation, LinkEvent::Association(_)) => true,
        (LinkPhase::Associated, LinkEvent::Disconnected) => true,
        (LinkPhase::BackoffAfterDisconnect, LinkEvent::Waited) => true,
        (LinkPhase::CheckingRadio, LinkEvent::Radio(_)) => true,
        (LinkPhase::Starting, LinkEvent::RadioStarted) => true,
        (LinkPhase::Connecting, LinkEvent::Attempt(_)) => true,
        (LinkPhase::BackoffAfterFailure, LinkEvent::Waited) => true,
        _ => false,
    }
}

/// The supervisor's policy: an associated station waits for a disconnect and
/// then backs off; a radio that is not started is started; then it associates,
/// and backs off after a failure. It never stops.
pub open spec fn link_transition(p: LinkPhase, e: LinkEvent) -> (LinkPhase, LinkAction) {
    match (p, e) {
        (LinkPhase::CheckingAssociation, LinkEvent::Association(true)) => (
            LinkPhase::Associated,
            LinkAction::AwaitDisconnect,
        ),
        (LinkPhase::CheckingAssociation, LinkEvent::Association(false)) => (
            LinkPhase::CheckingRadio,
            LinkAction::QueryRadio,
        ),
        (LinkPhase::Associated, LinkEvent::Disconnected) => (
            LinkPhase::BackoffAfterDisconnect,
            LinkAction::Sleep(RECONNECT_BACKOFF_MS),
        ),
        (LinkPhase::BackoffAfterDisconnect, LinkEvent::Waited) => (
            LinkPhase::CheckingRadio,
            LinkAction::QueryRadio,
        ),
        (LinkPhase::CheckingRadio, LinkEvent::Radio(false)) => (LinkPhase::Starting, LinkAction::StartRadio),
        (LinkPhase::CheckingRadio, LinkEvent::Radio(true)) => (LinkPhase::Connecting, LinkAction::Connect),
        (LinkPhase::Starting, LinkEvent::RadioStarted) => (LinkPhase::Connecting, LinkAction::Connect),
        (LinkPhase::Connecting, LinkEvent::Attempt(true)) => (
            LinkPhase::CheckingAssociation,
            LinkAction::QueryAssociation,
        ),
        (LinkPhase::Connecting, LinkEvent::Attempt(false)) => (
            LinkPhase::BackoffAfterFailure,
            LinkAction::Sleep(RECONNECT_BACKOFF_MS),
        ),
        (LinkPhase::BackoffAfterFailure, LinkEvent::Waited) => (
            LinkPhase::CheckingAssociation,
            LinkAction::QueryAssociation,
        ),
        _ => (p, LinkAction::QueryAssociation),
    }
}

impl LinkPhase {
    /// Whether `e` is the event that the supervisor waits for.
    pub fn accepts(&self, e: LinkEvent) -> (r: bool)
        ensures
            r == link_accepts_spec(*self, e),
    {
        match (self, e) {
            (LinkPhase::CheckingAssociation, LinkEvent::Association(_)) => true,
            (LinkPhase::Associated, LinkEvent::Disconnected) => true,
            (LinkPhase::BackoffAfterDisconnect, LinkEvent::Waited) => true,
            (LinkPhase::CheckingRadio, LinkEvent::Radio(_)) => true,
            (LinkPhase::Starting, LinkEvent::RadioStarted) => true,
            (LinkPhase::Connecting, LinkEvent::Attempt(_)) => true,
            (LinkPhase::BackoffAfterFailure, LinkEvent::Waited) => true,
            _ => false,
        }
    }

    /// Takes the awaited event and decides the next action.
    pub fn supervise(&mut self, e: LinkEvent) -> (r: LinkAction)
        requires
            link_accepts_spec(*old(self), e),
        ensures
            (*final(self), r) == link_transition(*old(self), e),
    {
        let (next, action) = match (*self, e) {
            (LinkPhase::CheckingAssociation, LinkEvent::Association(true)) => (
                LinkPhase::Associated,
                LinkAction::AwaitDisconnect,
            ),
            (LinkPhase::CheckingAssociation, LinkEvent::Association(false)) => (
                LinkPhase::CheckingRadio,
                LinkAction::QueryRadio,
            ),
            (LinkPhase::Associated, LinkEvent::Disconnected) => (
                LinkPhase::BackoffAfterDisconnect,
                LinkAction::Sleep(RECONNECT_BACKOFF_MS),
            ),
            (LinkPhase::BackoffAfterDisconnect, LinkEvent::Waited) => (
                LinkPhase::CheckingRadio,
                LinkAction::QueryRadio,
            ),
            (LinkPhase::CheckingRadio, LinkEvent::Radio(false)) => (
                LinkPhase::Starting,
                LinkAction::StartRadio,
            ),
            (LinkPhase::CheckingRadio, LinkEvent::Radio(true)) => (
                LinkPhase::Connecting,
                LinkAction::Connect,
            ),
            (LinkPhase::Starting, LinkEvent::RadioStarted) => (LinkPhase::Connecting, LinkAction::Connect),
            (LinkPhase::Connecting, LinkEvent::Attempt(true)) => (
                LinkPhase::CheckingAssociation,
                LinkAction::QueryAssociation,
            ),
            (LinkPhase::Connecting, LinkEvent::Attempt(false)) => (
                LinkPhase::BackoffAfterFailure,
                LinkAction::Sleep(RECONNECT_BACKOFF_MS),
            ),
            (LinkPhase::BackoffAfterFailure, LinkEvent::Waited) => (
                LinkPhase::CheckingAssociation,
                LinkAction::QueryAssociation,
            ),
            _ => (*self, LinkAction::QueryAssociation),
        };
        *self = next;
        action
    }
}

/// A lost association and a failed attempt are both followed by the same
/// back-off before the next attempt.
pub proof fn lemma_backoff_before_retry()
    ensures
        link_transition(LinkPhase::Associated, LinkEvent::Disconnected).1 == LinkAction::Sleep(5000),
        link_transition(LinkPhase::Connecting, LinkEvent::Attempt(false)).1 == LinkAction::Sleep(5000),
        link_transition(LinkPhase::BackoffAfterDisconnect, LinkEvent::Waited).1 == LinkAction::QueryRadio,
        link_transition(LinkPhase::BackoffAfterFailure, LinkEvent::Waited).1 == LinkAction::QueryAssociation,
{
}

} // verus!
