use vstd::prelude::*;

use crate::session::SignerState;

verus! {

/// The signer task's own state machine.  Challenges are handled one at a
/// time; the shutdown signal stops the task only once the challenge in
/// hand is done; a failed challenge is counted and the task keeps running.
pub struct SignerTask {
    state: SignerState,
    in_flight: bool,
    failures: u64,
}

impl SignerTask {
    pub closed spec fn state_view(&self) -> SignerState {
        self.state
    }

    pub closed spec fn in_flight_view(&self) -> bool {
        self.in_flight
    }

    pub closed spec fn failures_view(&self) -> nat {
        self.failures as nat
    }

    /// A challenge is in hand only while the task runs or is stopping.
    pub closed spec fn wf(&self) -> bool {
        self.in_flight ==> self.state != SignerState::Stopped
    }

    /// A task that was just started.
    pub fn new() -> (r: SignerTask)
        ensures
            r.wf(),
            r.state_view() == SignerState::Running,
            !r.in_flight_view(),
            r.failures_view() == 0,
    {
        SignerTask { state: SignerState::Running, in_flight: false, failures: 0 }
    }

    /// Offers the next challenge.  It is taken only by a running task with no
    /// challenge in hand, so two are never handled at once and none is taken
    /// after the shutdown signal.
    pub fn offer_challenge(&mut self) -> (accepted: bool)
        requires
            old(self).wf(),
        ensures
            final(self).wf(),
            accepted == (old(self).state_view() == SignerState::Running && !old(self).in_flight_view()),
            accepted ==> final(self).in_flight_view(),
            !accepted ==> *final(self) == *old(self),
            final(self).state_view() == old(self).state_view(),
            final(self).failures_view() == old(self).failures_view(),
    {
        if self.state == SignerState::Running && !self.in_flight {
            self.in_flight = true;
            true
        } else {
            false
        }
    }

    /// The challenge in hand is done, well or not.  A failure is counted
    /// (saturating) and does not end the task; a stopping task stops now.
    pub fn challenge_done(&mut self, ok: bool)
        requires
            old(self).wf(),
            old(self).in_flight_view(),
        ensures
            final(self).wf(),
            !final(self).in_flight_view(),
            old(self).state_view() == SignerState::Running ==> final(self).state_view()
                == SignerState::Running,
            old(self).state_view() == SignerState::Stopping ==> final(self).state_view()
                == SignerState::Stopped,
            ok ==> final(self).failures_view() == old(self).failures_view(),
            !ok ==> final(self).failures_view() == if old(self).failures_view() < u64::MAX {
                old(self).failures_view() + 1
            } else {
                old(self).failures_view()
            },
    {
        self.in_flight = false;
        if !ok && self.failures < u64::MAX {
            self.failures = self.failures + 1;
        }
        if self.state == SignerState::Stopping {
            self.state = SignerState::Stopped;
        }
    }

    /// The shutdown signal was observed.  With a challenge in hand the task
    /// is stopping until that challenge is done; otherwise it stops.  A
    /// second signal changes nothing.
    pub fn shutdown_observed(&mut self)
        requires
            old(self).wf(),
        ensures
            final(self).wf(),
            final(self).in_flight_view() == old(self).in_flight_view(),
            final(self).failures_view() == old(self).failures_view(),
            old(self).state_view() == SignerState::Running ==> final(self).state_view() == if old(
                self,
            ).in_flight_view() {
                SignerState::Stopping
            } else {
                SignerState::Stopped
            },
            old(self).state_view() != SignerState::Running ==> final(self).state_view() == old(
                self,
            ).state_view(),
    {
        if self.state == SignerState::Running {
            if self.in_flight {
                self.state = SignerState::Stopping;
            } else {
                self.state = SignerState::Stopped;
            }
        }
    }

    /// The task was cancelled: it stops at once, whatever it held.
    pub fn cancelled(&mut self)
        requires
            old(self).wf(),
        ensures
            final(self).wf(),
            final(self).state_view() == SignerState::Stopped,
            !final(self).in_flight_view(),
            final(self).failures_view() == old(self).failures_view(),
    {
        self.state = SignerState::Stopped;
        self.in_flight = false;
    }

    pub fn state(&self) -> (r: SignerState)
        ensures
            r == self.state_view(),
    {
        self.state
    }

    /// Whether the task has ended, as its handle reports it.
    pub fn is_finished(&self) -> (r: bool)
        ensures
            r == (self.state_view() == SignerState::Stopped),
    {
        self.state == SignerState::Stopped
    }

    /// How many challenges failed.
    pub fn failures(&self) -> (r: u64)
        ensures
            r as nat == self.failures_view(),
    {
        self.failures
    }
}

} // verus!
