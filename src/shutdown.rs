use vstd::prelude::*;

verus! {

/// Time between two looks at whether the signer task has finished.
pub const POLL_INTERVAL_MS: u64 = 1000;

/// How many times the coordinator waits for the signer before cancelling it.
pub const MAX_POLLS: u32 = 5;

/// Time left for a forced cancellation to take effect.
pub const CANCEL_SETTLE_MS: u64 = 1000;

/// The longest a shutdown waits in all: the grace window, then the delay
/// after a forced cancellation.
pub open spec fn shutdown_wait_bound() -> nat {
    MAX_POLLS as nat * POLL_INTERVAL_MS as nat + CANCEL_SETTLE_MS as nat
}

/// How the signer task came to an end.
#[derive(Clone, Copy, Debug, PartialEq, Eq, Structural)]
pub enum ShutdownOutcome {
    /// It finished on its own within the grace window.
    Graceful,
    /// It was cancelled once the grace window had passed.
    Forced,
}

/// What the host is to do next while draining the signer.
#[derive(Clone, Copy, Debug, PartialEq, Eq, Structural)]
pub enum ShutdownStep {
    /// Wait this many milliseconds, then report whether the task finished.
    Sleep(u64),
    /// Cancel the task, then report again.
    Abort,
    /// Shutdown is over.
    Finish(ShutdownOutcome),
}

/// Where a drain stands: polling the task, just cancelled it, waited after
/// the cancellation, or over.
#[derive(Clone, Copy, Debug, PartialEq, Eq, Structural)]
pub enum DrainPhase {
    Polling,
    Cancelled,
    Settled,
    Done,
}

/// The state of a drain: how many polls were made, the phase, and whether
/// the task had to be cancelled.
pub struct DrainState {
    pub polls: nat,
    pub phase: DrainPhase,
    pub forced: bool,
}

/// How long a step makes the host wait.
pub open spec fn sleep_of(step: ShutdownStep) -> nat {
    match step {
        ShutdownStep::Sleep(ms) => ms as nat,
        _ => 0,
    }
}

/// The drain that starts once the signal was sent.
pub open spec fn initial_drain() -> DrainState {
    DrainState { polls: 0, phase: DrainPhase::Polling, forced: false }
}

pub open spec fn drain_wf(s: DrainState) -> bool {
    &&& s.polls <= MAX_POLLS
    &&& s.phase == DrainPhase::Cancelled ==> s.forced
    &&& s.phase == DrainPhase::Settled ==> s.forced
}

/// The step taken in state `s` when told whether the task has finished,
/// and the state after it.  While polling: a finished task ends the drain
/// gracefully; otherwise the coordinator waits one interval, up to
/// `MAX_POLLS` times, and then cancels the task, waits once more and ends
/// the drain as forced.
pub open spec fn drain_step(s: DrainState, finished: bool) -> (DrainState, ShutdownStep) {
    match s.phase {
        DrainPhase::Polling => {
            if finished {
                (
                    DrainState { phase: DrainPhase::Done, forced: false, ..s },
                    ShutdownStep::Finish(ShutdownOutcome::Graceful),
                )
            } else if s.polls < MAX_POLLS {
                (DrainState { polls: s.polls + 1, ..s }, ShutdownStep::Sleep(POLL_INTERVAL_MS))
            } else {
                (DrainState { phase: DrainPhase::Cancelled, forced: true, ..s }, ShutdownStep::Abort)
            }
        },
        DrainPhase::Cancelled => (
            DrainState { phase: DrainPhase::Settled, ..s },
            ShutdownStep::Sleep(CANCEL_SETTLE_MS),
        ),
        DrainPhase::Settled => (
            DrainState { phase: DrainPhase::Done, ..s },
            ShutdownStep::Finish(ShutdownOutcome::Forced),
        ),
        DrainPhase::Done => (
            s,
            ShutdownStep::Finish(
                if s.forced {
                    ShutdownOutcome::Forced
                } else {
                    ShutdownOutcome::Graceful
                },
            ),
        ),
    }
}

/// The most the host may still be told to wait.
pub open spec fn wait_left(s: DrainState) -> nat {
    match s.phase {
        DrainPhase::Polling => (MAX_POLLS - s.polls) as nat * POLL_INTERVAL_MS as nat
            + CANCEL_SETTLE_MS as nat,
        DrainPhase::Cancelled => CANCEL_SETTLE_MS as nat,
        _ => 0,
    }
}

/// The most steps there are still to come before `Finish`.
pub open spec fn steps_left(s: DrainState) -> nat {
    match s.phase {
        DrainPhase::Polling => (MAX_POLLS - s.polls) as nat + 3,
        DrainPhase::Cancelled => 2,
        DrainPhase::Settled => 1,
        DrainPhase::Done => 0,
    }
}

/// Drains the signer task after the shutdown signal was sent: a bounded
/// number of polls, then a forced cancellation and a last delay.  The host
/// calls `next` with whether the task has finished and does what it says.
#[derive(Clone, Copy, Debug)]
pub struct ShutdownCoordinator {
    polls: u32,
    phase: DrainPhase,
    forced: bool,
}

impl View for ShutdownCoordinator {
    type V = DrainState;

    closed spec fn view(&self) -> DrainState {
        DrainState { polls: self.polls as nat, phase: self.phase, forced: self.forced }
    }
}

impl ShutdownCoordinator {
    /// A coordinator for a signal that was just sent.
    pub fn new() -> (r: ShutdownCoordinator)
        ensures
            r@ == initial_drain(),
            drain_wf(r@),
            wait_left(r@) == shutdown_wait_bound(),
    {
        ShutdownCoordinator { polls: 0, phase: DrainPhase::Polling, forced: false }
    }

    /// Decides the next step from whether the signer task has finished.
    pub fn next(&mut self, finished: bool) -> (step: ShutdownStep)
        requires
            drain_wf(old(self)@),
        ensures
            (final(self)@, step) == drain_step(old(self)@, finished),
            drain_wf(final(self)@),
    {
        match self.phase {
            DrainPhase::Polling => {
                if finished {
                    self.phase = DrainPhase::Done;
                    self.forced = false;
                    ShutdownStep::Finish(ShutdownOutcome::Graceful)
                } else if self.polls < MAX_POLLS {
                    self.polls = self.polls + 1;
                    ShutdownStep::Sleep(POLL_INTERVAL_MS)
                } else {
                    self.phase = DrainPhase::Cancelled;
                    self.forced = true;
                    ShutdownStep::Abort
                }
            },
            DrainPhase::Cancelled => {
                self.phase = DrainPhase::Settled;
                ShutdownStep::Sleep(CANCEL_SETTLE_MS)
            },
            DrainPhase::Settled => {
                self.phase = DrainPhase::Done;
                ShutdownStep::Finish(ShutdownOutcome::Forced)
            },
            DrainPhase::Done => {
                if self.forced {
                    ShutdownStep::Finish(ShutdownOutcome::Forced)
                } else {
                    ShutdownStep::Finish(ShutdownOutcome::Graceful)
                }
            },
        }
    }
}

/// Each step keeps the drain well formed, waits no longer than the budget
/// it uses up, and brings `Finish` nearer.
proof fn lemma_step_progress(s: DrainState, finished: bool)
    requires
        drain_wf(s),
    ensures
        ({
            let (s2, step) = drain_step(s, finished);
            &&& drain_wf(s2)
            &&& sleep_of(step) + wait_left(s2) <= wait_left(s)
            &&& !(step is Finish) ==> steps_left(s2) < steps_left(s)
            &&& steps_left(s) == 0 ==> step is Finish
        }),
{
}

/// What a run of the coordinator over a sequence of observations of the
/// signer task amounts to.
pub struct DrainRun {
    /// Total time the host was told to wait.
    pub slept: nat,
    /// Whether a `Finish` step was reached.
    pub finished: bool,
    /// Whether the task was cancelled.
    pub aborted: bool,
}

/// Runs `c` over `obs`, one observation per step, stopping at `Finish`.
pub open spec fn drain(c: DrainState, obs: Seq<bool>) -> DrainRun
    decreases obs.len(),
{
    if obs.len() == 0 {
        DrainRun { slept: 0, finished: false, aborted: false }
    } else {
        let (c2, step) = drain_step(c, obs[0]);
        if step is Finish {
            DrainRun { slept: 0, finished: true, aborted: false }
        } else {
            let rest = drain(c2, obs.drop_first());
            DrainRun {
                slept: sleep_of(step) + rest.slept,
                finished: rest.finished,
                aborted: step is Abort || rest.aborted,
            }
        }
    }
}

proof fn lemma_drain_from(c: DrainState, obs: Seq<bool>)
    requires
        drain_wf(c),
    ensures
        drain(c, obs).slept <= wait_left(c),
        obs.len() > steps_left(c) ==> drain(c, obs).finished,
    decreases obs.len(),
{
    if obs.len() > 0 {
        lemma_step_progress(c, obs[0]);
        let (c2, step) = drain_step(c, obs[0]);
        if !(step is Finish) {
            lemma_drain_from(c2, obs.drop_first());
        }
    }
}

/// Shutdown is bounded: whatever the signer task does, the host is told to
/// wait no longer than the grace window plus the cancellation delay, and
/// after `MAX_POLLS + 4` observations the coordinator has finished.
pub proof fn lemma_shutdown_bounded(obs: Seq<bool>)
    ensures
        drain(initial_drain(), obs).slept <= shutdown_wait_bound(),
        obs.len() >= MAX_POLLS + 4 ==> drain(initial_drain(), obs).finished,
{
    lemma_drain_from(initial_drain(), obs);
}

/// A signer that finishes within the grace window is never cancelled: the
/// coordinator only aborts after `MAX_POLLS + 1` observations that it had
/// not finished.
pub proof fn lemma_graceful_never_aborts(obs: Seq<bool>, k: int)
    requires
        0 <= k <= MAX_POLLS,
        k < obs.len(),
        obs[k],
    ensures
        !drain(initial_drain(), obs).aborted,
{
    lemma_no_abort_before(initial_drain(), obs, k);
}

proof fn lemma_no_abort_before(c: DrainState, obs: Seq<bool>, k: int)
    requires
        drain_wf(c),
        c.phase == DrainPhase::Polling,
        0 <= k <= MAX_POLLS - c.polls,
        k < obs.len(),
        obs[k],
    ensures
        !drain(c, obs).aborted,
    decreases k,
{
    let (c2, step) = drain_step(c, obs[0]);
    if k > 0 && !(step is Finish) {
        assert(obs.drop_first()[k - 1] == obs[k]);
        lemma_no_abort_before(c2, obs.drop_first(), k - 1);
    }
}

} // verus!
