//! The discard/test/retry handshake state machine.
//!
//! Before a handle is handed to the caller, the connection manager must
//! confirm that the device is alive and speaks the expected protocol. It
//! flushes stale bytes, runs a connection self-test, and retries the full
//! discard/test cycle on a mismatch — at most [`HANDSHAKE_TRIES`] cycles
//! in all. Only `Verified` is a usable terminal state; `Failed` is
//! terminal and non-recoverable without reopening the transport.

use vstd::prelude::*;

verus! {

/// How many full discard/test cycles the handshake may spend.
pub const HANDSHAKE_TRIES: u8 = 3;

/// The states of the connection handshake.
#[derive(Clone, Copy, Debug, PartialEq, Eq, Structural)]
pub enum HandshakeState {
    /// No transport has been opened yet.
    Disconnected,
    /// The transport is open; the handshake has not begun.
    PortOpened,
    /// Stale bytes are being flushed from both sides of the line.
    Discarding,
    /// A connection self-test exchange is in flight.
    Testing,
    /// A self-test reply matched: the device speaks the protocol.
    Verified,
    /// The retry budget is exhausted; the handle must be discarded.
    Failed,
}

/// The events the handshake reacts to.
#[derive(Clone, Copy, Debug, PartialEq, Eq, Structural)]
pub enum HandshakeEvent {
    /// The transport was opened.
    Opened,
    /// Begin flushing stale bytes.
    Begin,
    /// The discard sequence completed.
    Flushed,
    /// A self-test reply matched the expectation.
    TestPassed,
    /// A self-test reply mismatched, or its exchange failed.
    TestFailed,
}

/// The handshake: a state together with the remaining attempt budget.
#[derive(Clone, Copy, Debug, PartialEq, Eq, Structural)]
pub struct Handshake {
    /// Where in the discard/test/retry sequence the handshake stands.
    pub state: HandshakeState,
    /// How many full discard/test cycles may still be spent.
    pub tries_left: u8,
}

impl Handshake {
    /// The attempt budget never exceeds the fixed maximum.
    pub open spec fn wf(self) -> bool {
        self.tries_left <= HANDSHAKE_TRIES
    }

    /// The starting point: disconnected, with the full attempt budget.
    pub open spec fn init_spec() -> Handshake {
        Handshake { state: HandshakeState::Disconnected, tries_left: HANDSHAKE_TRIES }
    }

    /// Returns the starting handshake.
    pub fn init() -> (r: Handshake)
        ensures
            r == Handshake::init_spec(),
    {
        Handshake { state: HandshakeState::Disconnected, tries_left: HANDSHAKE_TRIES }
    }

    /// The transition function. A mismatch in `Testing` returns to
    /// `Discarding` while attempts remain and becomes `Failed` once the
    /// budget is spent; `Verified` and `Failed` absorb every event; an
    /// event that does not apply to the current state changes nothing.
    pub open spec fn step_spec(self, ev: HandshakeEvent) -> Handshake {
        match (self.state, ev) {
            (HandshakeState::Disconnected, HandshakeEvent::Opened) => Handshake {
                state: HandshakeState::PortOpened,
                tries_left: self.tries_left,
            },
            (HandshakeState::PortOpened, HandshakeEvent::Begin) => Handshake {
                state: HandshakeState::Discarding,
                tries_left: self.tries_left,
            },
            (HandshakeState::Discarding, HandshakeEvent::Flushed) => Handshake {
                state: HandshakeState::Testing,
                tries_left: self.tries_left,
            },
            (HandshakeState::Testing, HandshakeEvent::TestPassed) => Handshake {
                state: HandshakeState::Verified,
                tries_left: self.tries_left,
            },
            (HandshakeState::Testing, HandshakeEvent::TestFailed) => if self.tries_left > 1 {
                Handshake {
                    state: HandshakeState::Discarding,
                    tries_left: (self.tries_left - 1) as u8,
                }
            } else {
                Handshake { state: HandshakeState::Failed, tries_left: 0 }
            },
            _ => self,
        }
    }

    /// Applies one transition.
    pub fn step(self, ev: HandshakeEvent) -> (r: Handshake)
        ensures
            r == self.step_spec(ev),
    {
        match (self.state, ev) {
            (HandshakeState::Disconnected, HandshakeEvent::Opened) => Handshake {
                state: HandshakeState::PortOpened,
                tries_left: self.tries_left,
            },
            (HandshakeState::PortOpened, HandshakeEvent::Begin) => Handshake {
                state: HandshakeState::Discarding,
                tries_left: self.tries_left,
            },
            (HandshakeState::Discarding, HandshakeEvent::Flushed) => Handshake {
                state: HandshakeState::Testing,
                tries_left: self.tries_left,
            },
            (HandshakeState::Testing, HandshakeEvent::TestPassed) => Handshake {
                state: HandshakeState::Verified,
                tries_left: self.tries_left,
            },
            (HandshakeState::Testing, HandshakeEvent::TestFailed) => if self.tries_left > 1 {
                Handshake {
                    state: HandshakeState::Discarding,
                    tries_left: self.tries_left - 1,
                }
            } else {
                Handshake { state: HandshakeState::Failed, tries_left: 0 }
            },
            _ => self,
        }
    }

    /// Whether the handshake is still running a discard/test cycle.
    pub open spec fn in_progress_spec(self) -> bool {
        self.state is Discarding || self.state is Testing
    }

    /// Returns whether the handshake is still running.
    pub fn in_progress(self) -> (r: bool)
        ensures
            r == self.in_progress_spec(),
    {
        self.state == HandshakeState::Discarding || self.state == HandshakeState::Testing
    }

    /// A measure that strictly decreases across every transition taken
    /// while the handshake is in progress.
    pub open spec fn measure(self) -> nat {
        if self.in_progress_spec() {
            (2 * self.tries_left + (if self.state is Discarding { 1int } else { 0int })) as nat
        } else {
            0
        }
    }
}

/// One transition never enlarges the attempt budget: the bound on the
/// number of cycles is preserved by every event.
pub proof fn lemma_step_preserves_wf(h: Handshake, ev: HandshakeEvent)
    requires
        h.wf(),
    ensures
        h.step_spec(ev).wf(),
{
}

/// `Verified` and `Failed` are terminal: no event moves the handshake
/// out of them, so a failed handshake cannot recover without reopening
/// the transport from scratch.
pub proof fn lemma_terminal_absorbing(h: Handshake, ev: HandshakeEvent)
    requires
        h.state is Verified || h.state is Failed,
    ensures
        h.step_spec(ev) == h,
{
}

/// Each failed test consumes one cycle of the budget, and a failed test
/// on the last cycle is terminal: the handshake never runs more than
/// `HANDSHAKE_TRIES` full discard/test cycles.
pub proof fn lemma_failed_test_consumes_budget(h: Handshake)
    requires
        h.state is Testing,
    ensures
        h.tries_left <= 1 ==> h.step_spec(HandshakeEvent::TestFailed).state is Failed,
        h.tries_left > 1 ==> h.step_spec(HandshakeEvent::TestFailed) == (Handshake {
            state: HandshakeState::Discarding,
            tries_left: (h.tries_left - 1) as u8,
        }),
{
}

/// A device that fails the first two discard/test cycles and passes the
/// third still verifies: the budget admits exactly three cycles.
pub proof fn lemma_third_attempt_succeeds()
    ensures
        Handshake::init_spec().step_spec(HandshakeEvent::Opened).step_spec(
            HandshakeEvent::Begin,
        ).step_spec(HandshakeEvent::Flushed).step_spec(HandshakeEvent::TestFailed).step_spec(
            HandshakeEvent::Flushed,
        ).step_spec(HandshakeEvent::TestFailed).step_spec(HandshakeEvent::Flushed).step_spec(
            HandshakeEvent::TestPassed,
        ).state is Verified,
{
}

/// A device that fails all three discard/test cycles ends in `Failed`.
pub proof fn lemma_three_failures_exhaust_budget()
    ensures
        Handshake::init_spec().step_spec(HandshakeEvent::Opened).step_spec(
            HandshakeEvent::Begin,
        ).step_spec(HandshakeEvent::Flushed).step_spec(HandshakeEvent::TestFailed).step_spec(
            HandshakeEvent::Flushed,
        ).step_spec(HandshakeEvent::TestFailed).step_spec(HandshakeEvent::Flushed).step_spec(
            HandshakeEvent::TestFailed,
        ).state is Failed,
{
}

} // verus!
