//! The accept loop and the shutdown coordinator, as rules.
//!
//! The loop alternates between reading the cancellation flag and trying a
//! non-blocking accept. Its owner holds the socket and the flag, reports
//! what it saw as an [`AcceptEvent`] and does what [`accept_step`] answers.

use vstd::prelude::*;

verus! {

/// How long the loop sleeps when no connection is pending, in milliseconds.
/// This bounds both the idle load and the delay of a shutdown.
pub const POLL_INTERVAL_MS: u64 = 100;

/// Where the accept loop stands.
#[derive(Clone, Copy, Debug, PartialEq, Eq, Structural)]
pub enum AcceptState {
    /// About to read the cancellation flag.
    Checking,
    /// About to try an accept.
    Accepting,
    /// The loop has ended; the pool is to be shut down.
    Stopped,
}

/// What the owner of the loop saw.
#[derive(Clone, Copy, Debug, PartialEq, Eq, Structural)]
pub enum AcceptEvent {
    /// The cancellation flag was read.
    Flag { cancelled: bool },
    /// The accept returned a connection.
    Connected,
    /// The accept would have blocked: no connection is pending.
    WouldBlock,
    /// The accept failed in some other way.
    Failed,
}

/// What the owner of the loop does next.
#[derive(Clone, Copy, Debug, PartialEq, Eq, Structural)]
pub enum AcceptAction {
    /// Read the cancellation flag and report it.
    CheckFlag,
    /// Try a non-blocking accept and report the outcome.
    Accept,
    /// Submit the accepted connection to the pool, then read the flag.
    Submit,
    /// Sleep for this long, then read the flag.
    Sleep { millis: u64 },
    /// Report the error; it is not fatal. Then read the flag.
    Report,
    /// Stop accepting and shut the pool down.
    Shutdown,
}

/// Whether `event` is what the loop waits for in `state`.
pub open spec fn expected(state: AcceptState, event: AcceptEvent) -> bool {
    match state {
        AcceptState::Checking => event is Flag,
        AcceptState::Accepting => !(event is Flag),
        AcceptState::Stopped => false,
    }
}

/// The rules of the accept loop.
///
/// A set flag stops the loop, whenever it is seen. With the flag unset the
/// loop tries an accept; a connection is submitted, a would-block is
/// answered with one sleep of [`POLL_INTERVAL_MS`], any other failure is
/// reported, and each of the three leads back to reading the flag. An
/// outcome that arrives while the loop waits for the flag is dropped.
pub open spec fn accept_rule(state: AcceptState, event: AcceptEvent) -> (AcceptState, AcceptAction) {
    match state {
        AcceptState::Stopped => (AcceptState::Stopped, AcceptAction::Shutdown),
        AcceptState::Checking => match event {
            AcceptEvent::Flag { cancelled } => if cancelled {
                (AcceptState::Stopped, AcceptAction::Shutdown)
            } else {
                (AcceptState::Accepting, AcceptAction::Accept)
            },
            _ => (AcceptState::Checking, AcceptAction::CheckFlag),
        },
        AcceptState::Accepting => match event {
            AcceptEvent::Flag { cancelled } => if cancelled {
                (AcceptState::Stopped, AcceptAction::Shutdown)
            } else {
                (AcceptState::Accepting, AcceptAction::Accept)
            },
            AcceptEvent::Connected => (AcceptState::Checking, AcceptAction::Submit),
            AcceptEvent::WouldBlock => (
                AcceptState::Checking,
                AcceptAction::Sleep { millis: POLL_INTERVAL_MS },
            ),
            AcceptEvent::Failed => (AcceptState::Checking, AcceptAction::Report),
        },
    }
}

/// Advances the accept loop by one event, as [`accept_rule`] prescribes.
pub fn accept_step(state: AcceptState, event: AcceptEvent) -> (r: (AcceptState, AcceptAction))
    ensures
        r == accept_rule(state, event),
{
    match state {
        AcceptState::Stopped => (AcceptState::Stopped, AcceptAction::Shutdown),
        AcceptState::Checking => match event {
            AcceptEvent::Flag { cancelled: true } => (AcceptState::Stopped, AcceptAction::Shutdown),
            AcceptEvent::Flag { cancelled: false } => (AcceptState::Accepting, AcceptAction::Accept),
            _ => (AcceptState::Checking, AcceptAction::CheckFlag),
        },
        AcceptState::Accepting => match event {
            AcceptEvent::Flag { cancelled: true } => (AcceptState::Stopped, AcceptAction::Shutdown),
            AcceptEvent::Flag { cancelled: false } => (AcceptState::Accepting, AcceptAction::Accept),
            AcceptEvent::Connected => (AcceptState::Checking, AcceptAction::Submit),
            AcceptEvent::WouldBlock => (
                AcceptState::Checking,
                AcceptAction::Sleep { millis: POLL_INTERVAL_MS },
            ),
            AcceptEvent::Failed => (AcceptState::Checking, AcceptAction::Report),
        },
    }
}

/// Once the cancellation flag is set, the loop stops within one round.
///
/// The flag is never unset, so every later read of it sees it set. From any
/// state, for any two events that the loop waits for, the loop has stopped
/// after the second at the latest; before that it makes at most one
/// attempt to accept and sleeps at most once, for [`POLL_INTERVAL_MS`].
pub proof fn law_cancelled_loop_stops(state: AcceptState, first: AcceptEvent, second: AcceptEvent)
    requires
        expected(state, first),
        first != (AcceptEvent::Flag { cancelled: false }),
        second != (AcceptEvent::Flag { cancelled: false }),
        expected(accept_rule(state, first).0, second) || accept_rule(state, first).0
            == AcceptState::Stopped,
    ensures
        accept_rule(accept_rule(state, first).0, second).0 == AcceptState::Stopped,
        accept_rule(state, first).1 != AcceptAction::Accept,
        accept_rule(accept_rule(state, first).0, second).1 == AcceptAction::Shutdown,
        accept_rule(state, first).1 is Sleep ==> accept_rule(state, first).1->millis
            == POLL_INTERVAL_MS,
{
}

/// A loop that has stopped stays stopped and never accepts again.
pub proof fn law_stopped_loop_stays_stopped(event: AcceptEvent)
    ensures
        accept_rule(AcceptState::Stopped, event) == (AcceptState::Stopped, AcceptAction::Shutdown),
{
}

/// A connection is submitted only when an accept returned one, and then
/// always: the loop drops no connection that it was asked to accept.
pub proof fn law_submit_iff_connected(state: AcceptState, event: AcceptEvent)
    ensures
        accept_rule(state, event).1 == AcceptAction::Submit <==> state == AcceptState::Accepting
            && event == AcceptEvent::Connected,
{
}

/// Listens for the termination signal and turns the first one into the
/// request to set the cancellation flag. It is single-shot.
pub struct ShutdownCoordinator {
    listening: bool,
}

impl ShutdownCoordinator {
    /// Whether the coordinator still waits for a signal.
    pub closed spec fn listening(&self) -> bool {
        self.listening
    }

    /// A coordinator that waits for its first signal.
    pub fn new() -> (r: ShutdownCoordinator)
        ensures
            r.listening(),
    {
        ShutdownCoordinator { listening: true }
    }

    /// Whether the coordinator still waits for a signal.
    pub fn is_listening(&self) -> (r: bool)
        ensures
            r == self.listening(),
    {
        self.listening
    }

    /// A termination signal has arrived. The result says whether the
    /// cancellation flag is to be set now: `true` for the first signal and
    /// for no other. Afterwards the coordinator listens no more.
    pub fn on_signal(&mut self) -> (set_flag: bool)
        ensures
            set_flag == old(self).listening(),
            !final(self).listening(),
    {
        let first = self.listening;
        self.listening = false;
        first
    }
}

} // verus!
