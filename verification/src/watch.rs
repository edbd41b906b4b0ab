//! The state machine of one Watch session's producer: emit a serving status,
//! sleep one interval, repeat, until an emission fails to reach the consumer.
//!
//! The async plumbing — the task, the channel, the actual sleeping — lives
//! with the caller; this machine decides, step by step, what that task does
//! next, and the contracts pin the emit-then-sleep ordering down.

use crate::rpc::spec_serving_response;
use crate::rpc::serving_response;
use crate::rpc::HealthCheckResponse;
use vstd::prelude::*;

verus! {

/// Milliseconds the producer sleeps between two emissions.
pub const WATCH_INTERVAL_MS: u64 = 1000;

/// Where one Watch session's producer stands.
#[derive(Clone, Copy, Debug, PartialEq, Eq, Structural)]
pub enum SessionPhase {
    /// About to emit a status.
    Emitting,
    /// Between two emissions, waiting out one interval.
    Sleeping,
    /// The consumer is gone; the producer does nothing any more.
    Stopped,
}

/// The one thing the producer does next.
#[derive(Clone, Copy, Debug, PartialEq, Eq, Structural)]
pub enum WatchStep {
    /// Send this response to the consumer.
    Emit(HealthCheckResponse),
    /// Suspend for this many milliseconds.
    Sleep(u64),
    /// Terminate the producer task.
    Stop,
}

/// One Watch session's producer, from stream establishment to consumer
/// disconnect. A fresh session emits first — the first status goes out
/// without waiting a full interval — and the sole termination signal is a
/// failed emission.
#[derive(Clone, Copy, Debug, PartialEq, Eq, Structural)]
pub struct WatchSession {
    phase: SessionPhase,
    sent: u64,
}

impl WatchSession {
    /// The phase the session is in.
    pub closed spec fn spec_phase(self) -> SessionPhase {
        self.phase
    }

    /// How many emissions have reached the consumer.
    pub closed spec fn spec_sent(self) -> int {
        self.sent as int
    }

    /// A session as `Watch` establishes it: about to emit, nothing sent.
    pub closed spec fn spec_init() -> WatchSession {
        (WatchSession { phase: SessionPhase::Emitting, sent: 0 })
    }

    /// What the producer does next in each phase: emit the serving status,
    /// sleep one interval, or stop.
    pub open spec fn spec_next_step(self) -> WatchStep {
        match self.spec_phase() {
            SessionPhase::Emitting => WatchStep::Emit(spec_serving_response()),
            SessionPhase::Sleeping => WatchStep::Sleep(WATCH_INTERVAL_MS),
            SessionPhase::Stopped => WatchStep::Stop,
        }
    }

    /// The session after an emission was attempted: a delivered emission is
    /// counted and followed by a sleep; an undeliverable one — the consumer
    /// is gone — stops the session for good. In any other phase nothing
    /// changes.
    pub closed spec fn spec_after_send(self, delivered: bool) -> WatchSession {
        if self.phase is Emitting {
            if delivered {
                (WatchSession {
                    phase: SessionPhase::Sleeping,
                    sent: if self.sent < u64::MAX {
                        (self.sent + 1) as u64
                    } else {
                        self.sent
                    },
                })
            } else {
                (WatchSession { phase: SessionPhase::Stopped, ..self })
            }
        } else {
            self
        }
    }

    /// The session after the interval was waited out: back to emitting. In
    /// any other phase nothing changes.
    pub closed spec fn spec_after_sleep(self) -> WatchSession {
        if self.phase is Sleeping {
            (WatchSession { phase: SessionPhase::Emitting, ..self })
        } else {
            self
        }
    }

    pub(crate) fn init() -> (s: WatchSession)
        ensures
            s == WatchSession::spec_init(),
    {
        WatchSession { phase: SessionPhase::Emitting, sent: 0 }
    }

    /// Returns the phase the session is in.
    pub fn phase(&self) -> (p: SessionPhase)
        ensures
            p == self.spec_phase(),
    {
        self.phase
    }

    /// Returns how many emissions have reached the consumer.
    pub fn sent(&self) -> (n: u64)
        ensures
            n as int == self.spec_sent(),
    {
        self.sent
    }

    /// Tells the driving task what to do next.
    pub fn next_step(&self) -> (step: WatchStep)
        ensures
            step == self.spec_next_step(),
    {
        match self.phase {
            SessionPhase::Emitting => WatchStep::Emit(serving_response()),
            SessionPhase::Sleeping => WatchStep::Sleep(WATCH_INTERVAL_MS),
            SessionPhase::Stopped => WatchStep::Stop,
        }
    }

    /// Records the outcome of the emission the session asked for.
    pub fn on_send(&mut self, delivered: bool)
        requires
            old(self).spec_phase() is Emitting,
        ensures
            *final(self) == old(self).spec_after_send(delivered),
    {
        if delivered {
            if self.sent < u64::MAX {
                self.sent = self.sent + 1;
            }
            self.phase = SessionPhase::Sleeping;
        } else {
            self.phase = SessionPhase::Stopped;
        }
    }

    /// Records that the interval was waited out.
    pub fn on_slept(&mut self)
        requires
            old(self).spec_phase() is Sleeping,
        ensures
            *final(self) == old(self).spec_after_sleep(),
    {
        self.phase = SessionPhase::Emitting;
    }
}

/// A fresh session's first step is an emission of the serving status — the
/// first item goes out before any sleeping, so it arrives without a full
/// interval's delay.
pub proof fn lemma_first_step_is_emission()
    ensures
        WatchSession::spec_init().spec_next_step() == WatchStep::Emit(spec_serving_response()),
        WatchSession::spec_init().spec_sent() == 0,
{
}

/// After a delivered emission the producer sleeps exactly one interval, and
/// the emission is counted; after the sleep it emits the serving status
/// again. The session never stops on its own: delivered emissions and sleeps
/// alternate indefinitely.
pub proof fn lemma_emissions_alternate_with_sleeps(s: WatchSession)
    requires
        s.spec_phase() is Emitting,
    ensures
        s.spec_after_send(true).spec_next_step() == WatchStep::Sleep(WATCH_INTERVAL_MS),
        s.spec_sent() < u64::MAX ==> s.spec_after_send(true).spec_sent() == s.spec_sent() + 1,
        s.spec_after_send(true).spec_after_sleep().spec_next_step() == WatchStep::Emit(
            spec_serving_response(),
        ),
{
}

/// The session after `n` whole rounds of one delivered emission and one
/// waited-out interval each.
pub open spec fn spec_after_rounds(s: WatchSession, n: nat) -> WatchSession
    decreases n,
{
    if n == 0 {
        s
    } else {
        spec_after_rounds(s, (n - 1) as nat).spec_after_send(true).spec_after_sleep()
    }
}

/// The sequence of emissions is unbounded: as long as every emission is
/// delivered, the session comes back to emitting after each round, with
/// every round counted — however many rounds have gone by. Only the
/// consumer's disconnect ends it.
pub proof fn lemma_delivered_session_never_stops(s: WatchSession, n: nat)
    requires
        s.spec_phase() is Emitting,
        s.spec_sent() + n <= u64::MAX,
    ensures
        spec_after_rounds(s, n).spec_phase() is Emitting,
        spec_after_rounds(s, n).spec_sent() == s.spec_sent() + n,
    decreases n,
{
    if n > 0 {
        lemma_delivered_session_never_stops(s, (n - 1) as nat);
    }
}

/// A failed emission — the consumer disconnected — stops the session, and a
/// stopped session stays stopped whatever happens: its only step is to
/// terminate, and no event moves it out of that phase. After disconnect the
/// producer consumes nothing further.
pub proof fn lemma_failed_send_stops_for_good(s: WatchSession, delivered: bool)
    requires
        s.spec_phase() is Emitting,
    ensures
        s.spec_after_send(false).spec_next_step() == WatchStep::Stop,
        s.spec_after_send(false).spec_sent() == s.spec_sent(),
        forall|t: WatchSession, d: bool|
            t.spec_phase() is Stopped ==> #[trigger] t.spec_after_send(d) == t,
        forall|t: WatchSession|
            t.spec_phase() is Stopped ==> #[trigger] t.spec_after_sleep() == t,
{
}

} // verus!
