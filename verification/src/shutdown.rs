//! Process-wide shutdown coordinator: a monotonic state machine with an
//! optional request barrier. Any actor may request a shutdown; the signal
//! becomes effective once the configured number of distinct requests has
//! been registered, and once effective it never resets within a run.

use vstd::prelude::*;

verus! {

/// The phases of a coordinated shutdown, in the order they are reached.
#[derive(Clone, Copy, PartialEq, Eq, Structural, Debug)]
pub enum ShutdownPhase {
    /// No shutdown request has been made yet.
    Idle,
    /// At least one request was made, but the barrier is not yet met.
    Requested,
    /// The barrier is met: the liveness check starts answering false.
    Effective,
    /// The supervisor is waiting out the grace period for stragglers.
    Draining,
    /// Every actor completed, or stragglers were forcibly abandoned.
    Stopped,
}

/// Position of a phase along the one-way progression; transitions may only
/// increase it.
pub open spec fn phase_rank(p: ShutdownPhase) -> int {
    match p {
        ShutdownPhase::Idle => 0,
        ShutdownPhase::Requested => 1,
        ShutdownPhase::Effective => 2,
        ShutdownPhase::Draining => 3,
        ShutdownPhase::Stopped => 4,
    }
}

/// The single process-wide shutdown signal. Actors call `request`; every
/// actor's loop condition and the supervisor's wait loop read it.
#[derive(Clone, Copy, PartialEq, Eq, Structural, Debug)]
pub struct ShutdownCoordinator {
    /// How many distinct requests must arrive before the signal takes
    /// effect; always at least 1.
    pub barrier: u64,
    /// How many requests have been registered so far; never exceeds the
    /// barrier.
    pub requests: u64,
    /// The current phase of the shutdown progression.
    pub phase: ShutdownPhase,
}

impl ShutdownCoordinator {
    /// The phase always agrees with the request count: before any request
    /// the coordinator is idle, short of the barrier it is merely
    /// requested, and from the barrier on it is effective or later.
    pub open spec fn wf(self) -> bool {
        &&& self.barrier >= 1
        &&& self.requests <= self.barrier
        &&& (self.phase is Idle <==> self.requests == 0)
        &&& (self.phase is Requested <==> 0 < self.requests < self.barrier)
        &&& (phase_rank(self.phase) >= 2 <==> self.requests == self.barrier)
    }

    /// The signal is tripped: the barrier has been met and the shutdown is
    /// in effect.
    pub open spec fn effective(self) -> bool {
        phase_rank(self.phase) >= 2
    }

    /// What the liveness check answers: false only when the shutdown is
    /// effective and the actor's veto is false.
    pub open spec fn liveness(self, veto: bool) -> bool {
        !(self.effective() && !veto)
    }

    /// Creates an idle coordinator. A barrier of 1 means the first request
    /// takes effect immediately.
    pub fn new(barrier: u64) -> (c: ShutdownCoordinator)
        requires
            barrier >= 1,
        ensures
            c.wf(),
            c.barrier == barrier,
            c.requests == 0,
            c.phase is Idle,
            !c.effective(),
    {
        ShutdownCoordinator { barrier, requests: 0, phase: ShutdownPhase::Idle }
    }

    /// Registers one shutdown request. Requests past the barrier are
    /// absorbed; the count and the phase never move backwards, and once
    /// the barrier is met the signal is effective.
    pub fn request(&mut self)
        requires
            old(self).wf(),
        ensures
            final(self).wf(),
            final(self).barrier == old(self).barrier,
            final(self).requests == if old(self).requests < old(self).barrier {
                old(self).requests + 1
            } else {
                old(self).requests as int
            },
            phase_rank(final(self).phase) >= phase_rank(old(self).phase),
            final(self).requests >= old(self).requests,
            final(self).requests == final(self).barrier ==> final(self).effective(),
            old(self).effective() ==> *final(self) == *old(self),
    {
        if self.requests < self.barrier {
            self.requests = self.requests + 1;
            if self.requests == self.barrier {
                self.phase = ShutdownPhase::Effective;
            } else {
                self.phase = ShutdownPhase::Requested;
            }
        }
    }

    /// Reads the signal: whether the shutdown is in effect.
    pub fn is_effective(&self) -> (r: bool)
        requires
            self.wf(),
        ensures
            r == self.effective(),
    {
        self.requests == self.barrier
    }

    /// The per-actor liveness check. It answers false only when the
    /// shutdown signal is effective and the actor's own veto is false;
    /// a vetoing actor keeps running until its veto clears.
    pub fn is_running(&self, veto: bool) -> (r: bool)
        requires
            self.wf(),
        ensures
            r == self.liveness(veto),
    {
        !(self.requests == self.barrier && !veto)
    }

    /// As soon as the shutdown signal is effective, the very next liveness
    /// check decides by the veto alone: an actor whose veto is false stops
    /// on that check, while a vetoing actor keeps running until its own
    /// veto clears. Before the signal is effective every actor keeps
    /// running, veto or not.
    pub proof fn lemma_liveness_after_effective(self, veto: bool)
        ensures
            self.effective() ==> (self.liveness(veto) <==> veto),
            !self.effective() ==> self.liveness(veto),
    {
    }

    /// The supervisor starts waiting out the grace period for actors that
    /// are still vetoing or mid-iteration.
    pub fn begin_draining(&mut self)
        requires
            old(self).wf(),
            old(self).effective(),
        ensures
            final(self).wf(),
            final(self).barrier == old(self).barrier,
            final(self).requests == old(self).requests,
            final(self).phase is Draining || final(self).phase is Stopped,
            phase_rank(final(self).phase) >= phase_rank(old(self).phase),
            old(self).phase is Effective ==> final(self).phase is Draining,
            final(self).effective(),
    {
        if matches!(self.phase, ShutdownPhase::Effective) {
            self.phase = ShutdownPhase::Draining;
        }
    }

    /// Every actor has reached completion, or the grace period expired and
    /// stragglers were abandoned: the shutdown is complete.
    pub fn mark_stopped(&mut self)
        requires
            old(self).wf(),
            old(self).effective(),
        ensures
            final(self).wf(),
            final(self).barrier == old(self).barrier,
            final(self).requests == old(self).requests,
            final(self).phase is Stopped,
            phase_rank(final(self).phase) >= phase_rank(old(self).phase),
            final(self).effective(),
    {
        self.phase = ShutdownPhase::Stopped;
    }
}

} // verus!
