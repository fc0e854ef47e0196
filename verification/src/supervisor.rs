//! The supervisor: owns the set of registered actors, tracks each actor's
//! run state, restarts faulted actors with fresh state, and decides the
//! outcome of a graceful shutdown — clean success, or the list of
//! stragglers that failed to stop within the grace period.

use vstd::prelude::*;

verus! {

/// How an actor's execution is isolated: its own dedicated OS thread, or
/// a cooperatively scheduled slot on a small pool.
#[derive(Clone, Copy, PartialEq, Eq, Structural, Debug)]
pub enum ExecutionModel {
    /// A dedicated OS thread per actor.
    DedicatedThread,
    /// A cooperatively scheduled slot on a shared pool.
    CooperativeSlot,
}

/// The lifecycle position of one actor's execution unit.
#[derive(Clone, Copy, PartialEq, Eq, Structural, Debug)]
pub enum RunState {
    /// Registered, not yet launched.
    Registered,
    /// Launched and executing its run loop.
    Running,
    /// Asked to stop; still winding down.
    StopRequested,
    /// Terminated, voluntarily or by force.
    Stopped,
}

/// One registered actor: its name, its isolation choice, its monitoring
/// flag, its current run state, and how many times it has been restarted
/// after a fault.
pub struct ActorHandle {
    /// Human-readable name, for diagnostics and straggler reports.
    pub name: String,
    /// The isolation model chosen at registration.
    pub execution: ExecutionModel,
    /// Whether telemetry collection is enabled for this actor.
    pub monitored: bool,
    /// The actor's current lifecycle position.
    pub state: RunState,
    /// How many faults (error returns or panics) led to a relaunch.
    pub restarts: u64,
}

/// What the supervisor's wait loop does next while blocking until the
/// system has stopped.
#[derive(Debug, PartialEq, Eq)]
pub enum WaitDecision {
    /// Some actor is still underway and the grace period has not elapsed:
    /// keep waiting.
    KeepWaiting,
    /// Every actor reached its terminal state: clean shutdown.
    CleanStop,
    /// The grace period elapsed with these actors still underway: force-
    /// terminate or abandon them.
    ForceStop(Vec<String>),
}

/// The supervisor's registry of actors.
pub struct Supervisor {
    /// The registered actors, in registration order.
    pub actors: Vec<ActorHandle>,
}

/// The names of the actors among the first `n` of `s` that are not yet
/// stopped, in registration order.
pub open spec fn straggler_names(s: Seq<ActorHandle>, n: int) -> Seq<Seq<char>>
    decreases n,
{
    if n <= 0 {
        Seq::empty()
    } else if s[n - 1].state is Stopped {
        straggler_names(s, n - 1)
    } else {
        straggler_names(s, n - 1).push(s[n - 1].name@)
    }
}

impl Supervisor {
    /// Every actor has reached its terminal state.
    pub open spec fn all_stopped(self) -> bool {
        forall|i: int| 0 <= i < self.actors@.len() ==> self.actors@[i].state is Stopped
    }

    /// A supervisor that owns no actors yet.
    pub fn new() -> (s: Supervisor)
        ensures
            s.actors@.len() == 0,
    {
        Supervisor { actors: Vec::new() }
    }

    /// Registers an actor. Names should be unique for observability, but
    /// uniqueness is not enforced here: a collision only degrades
    /// diagnostics. The new actor is appended, not yet launched.
    pub fn register(&mut self, name: String, execution: ExecutionModel, monitored: bool)
        ensures
            final(self).actors@.len() == old(self).actors@.len() + 1,
            forall|i: int|
                0 <= i < old(self).actors@.len() ==> final(self).actors@[i]
                    == old(self).actors@[i],
            final(self).actors@.last().name == name,
            final(self).actors@.last().execution == execution,
            final(self).actors@.last().monitored == monitored,
            final(self).actors@.last().state is Registered,
            final(self).actors@.last().restarts == 0,
    {
        self.actors.push(
            ActorHandle { name, execution, monitored, state: RunState::Registered, restarts: 0 },
        );
    }

    /// Launches every registered actor: each moves to `Running`. Issues
    /// the launches and returns; it never blocks on the actors' work.
    pub fn start(&mut self)
        ensures
            final(self).actors@.len() == old(self).actors@.len(),
            forall|i: int|
                0 <= i < old(self).actors@.len() ==> {
                    &&& #[trigger] final(self).actors@[i].state is Running
                    &&& final(self).actors@[i].name == old(self).actors@[i].name
                    &&& final(self).actors@[i].execution == old(self).actors@[i].execution
                    &&& final(self).actors@[i].monitored == old(self).actors@[i].monitored
                    &&& final(self).actors@[i].restarts == old(self).actors@[i].restarts
                },
    {
        let n = self.actors.len();
        let mut k: usize = 0;
        while k < n
            invariant
                n == self.actors@.len(),
                k <= n,
                forall|i: int|
                    k <= i < n ==> #[trigger] self.actors@[i] == old(self).actors@[i],
                forall|i: int|
                    0 <= i < k ==> {
                        &&& #[trigger] self.actors@[i].state is Running
                        &&& self.actors@[i].name == old(self).actors@[i].name
                        &&& self.actors@[i].execution == old(self).actors@[i].execution
                        &&& self.actors@[i].monitored == old(self).actors@[i].monitored
                        &&& self.actors@[i].restarts == old(self).actors@[i].restarts
                    },
            decreases n - k,
        {
            let name = self.actors[k].name.clone();
            let execution = self.actors[k].execution;
            let monitored = self.actors[k].monitored;
            let restarts = self.actors[k].restarts;
            self.actors.set(
                k,
                ActorHandle { name, execution, monitored, state: RunState::Running, restarts },
            );
            k = k + 1;
        }
    }

    /// Asks every actor that is still underway to stop; actors already
    /// stopped stay stopped, and nothing else about them changes.
    pub fn request_stop_all(&mut self)
        ensures
            final(self).actors@.len() == old(self).actors@.len(),
            forall|i: int|
                0 <= i < old(self).actors@.len() ==> {
                    &&& #[trigger] final(self).actors@[i].state == if old(
                        self,
                    ).actors@[i].state is Stopped {
                        RunState::Stopped
                    } else {
                        RunState::StopRequested
                    }
                    &&& final(self).actors@[i].name == old(self).actors@[i].name
                    &&& final(self).actors@[i].execution == old(self).actors@[i].execution
                    &&& final(self).actors@[i].monitored == old(self).actors@[i].monitored
                    &&& final(self).actors@[i].restarts == old(self).actors@[i].restarts
                },
    {
        let n = self.actors.len();
        let mut k: usize = 0;
        while k < n
            invariant
                n == self.actors@.len(),
                k <= n,
                forall|i: int|
                    k <= i < n ==> #[trigger] self.actors@[i] == old(self).actors@[i],
                forall|i: int|
                    0 <= i < k ==> {
                        &&& #[trigger] self.actors@[i].state == if old(
                            self,
                        ).actors@[i].state is Stopped {
                            RunState::Stopped
                        } else {
                            RunState::StopRequested
                        }
                        &&& self.actors@[i].name == old(self).actors@[i].name
                        &&& self.actors@[i].execution == old(self).actors@[i].execution
                        &&& self.actors@[i].monitored == old(self).actors@[i].monitored
                        &&& self.actors@[i].restarts == old(self).actors@[i].restarts
                    },
            decreases n - k,
        {
            if !matches!(self.actors[k].state, RunState::Stopped) {
                let name = self.actors[k].name.clone();
                let execution = self.actors[k].execution;
                let monitored = self.actors[k].monitored;
                let restarts = self.actors[k].restarts;
                self.actors.set(
                    k,
                    ActorHandle {
                        name,
                        execution,
                        monitored,
                        state: RunState::StopRequested,
                        restarts,
                    },
                );
            }
            k = k + 1;
        }
    }

    /// Records that actor `k` reached its terminal state.
    pub fn mark_stopped(&mut self, k: usize)
        requires
            k < old(self).actors@.len(),
        ensures
            final(self).actors@.len() == old(self).actors@.len(),
            forall|i: int|
                0 <= i < old(self).actors@.len() && i != k ==> #[trigger] final(self).actors@[i]
                    == old(self).actors@[i],
            final(self).actors@[k as int].state is Stopped,
            final(self).actors@[k as int].name == old(self).actors@[k as int].name,
            final(self).actors@[k as int].execution == old(self).actors@[k as int].execution,
            final(self).actors@[k as int].monitored == old(self).actors@[k as int].monitored,
            final(self).actors@[k as int].restarts == old(self).actors@[k as int].restarts,
    {
        let name = self.actors[k].name.clone();
        let execution = self.actors[k].execution;
        let monitored = self.actors[k].monitored;
        let restarts = self.actors[k].restarts;
        self.actors.set(
            k,
            ActorHandle { name, execution, monitored, state: RunState::Stopped, restarts },
        );
    }

    /// Records a fault of actor `k` — an error return or a panic of its
    /// run — and relaunches it: the actor is running again with one more
    /// restart on record. The actor's own fresh state comes from its
    /// behavior's constructor, never from the faulted run.
    pub fn record_fault_and_restart(&mut self, k: usize)
        requires
            k < old(self).actors@.len(),
            old(self).actors@[k as int].restarts < u64::MAX,
        ensures
            final(self).actors@.len() == old(self).actors@.len(),
            forall|i: int|
                0 <= i < old(self).actors@.len() && i != k ==> #[trigger] final(self).actors@[i]
                    == old(self).actors@[i],
            final(self).actors@[k as int].state is Running,
            final(self).actors@[k as int].restarts == old(self).actors@[k as int].restarts + 1,
            final(self).actors@[k as int].name == old(self).actors@[k as int].name,
            final(self).actors@[k as int].execution == old(self).actors@[k as int].execution,
            final(self).actors@[k as int].monitored == old(self).actors@[k as int].monitored,
    {
        let name = self.actors[k].name.clone();
        let execution = self.actors[k].execution;
        let monitored = self.actors[k].monitored;
        let restarts = self.actors[k].restarts + 1;
        self.actors.set(
            k,
            ActorHandle { name, execution, monitored, state: RunState::Running, restarts },
        );
    }

    /// The names of the actors that have not stopped, in registration
    /// order.
    pub fn stragglers(&self) -> (r: Vec<String>)
        ensures
            r@.map_values(|s: String| s@) == straggler_names(
                self.actors@,
                self.actors@.len() as int,
            ),
    {
        let n = self.actors.len();
        let mut r: Vec<String> = Vec::new();
        let mut k: usize = 0;
        while k < n
            invariant
                n == self.actors@.len(),
                k <= n,
                r@.map_values(|s: String| s@) == straggler_names(self.actors@, k as int),
            decreases n - k,
        {
            if !matches!(self.actors[k].state, RunState::Stopped) {
                let name = self.actors[k].name.clone();
                r.push(name);
                proof {
                    assert(r@.map_values(|s: String| s@) =~= straggler_names(
                        self.actors@,
                        k + 1,
                    ));
                }
            }
            k = k + 1;
        }
        r
    }

    /// One round of the wait in `block_until_stopped`: the wait ends when
    /// every actor has stopped or when the grace period has elapsed after
    /// the stop was requested — whichever comes first. Until then it keeps
    /// waiting; at a forced end it names every actor still underway, in
    /// registration order.
    pub fn wait_step(&self, grace_elapsed: bool) -> (d: WaitDecision)
        ensures
            self.all_stopped() <==> d is CleanStop,
            !self.all_stopped() && !grace_elapsed ==> d is KeepWaiting,
            d matches WaitDecision::ForceStop(names) ==> !self.all_stopped() && grace_elapsed
                && names@.map_values(|s: String| s@) == straggler_names(
                self.actors@,
                self.actors@.len() as int,
            ),
            !self.all_stopped() && grace_elapsed ==> d is ForceStop,
    {
        let stragglers = self.stragglers();
        proof {
            lemma_straggler_names_len(self.actors@, self.actors@.len() as int);
        }
        if stragglers.len() == 0 {
            proof {
                assert(stragglers@.map_values(|s: String| s@).len() == 0);
            }
            WaitDecision::CleanStop
        } else if grace_elapsed {
            WaitDecision::ForceStop(stragglers)
        } else {
            WaitDecision::KeepWaiting
        }
    }

    /// The outcome of `block_until_stopped` once waiting is over: clean
    /// success exactly when every actor stopped, otherwise the names of
    /// the stragglers, in registration order.
    pub fn shutdown_outcome(&self) -> (r: Result<(), Vec<String>>)
        ensures
            r is Ok <==> self.all_stopped(),
            r matches Err(names) ==> names@.map_values(|s: String| s@) == straggler_names(
                self.actors@,
                self.actors@.len() as int,
            ) && names@.len() > 0,
    {
        let stragglers = self.stragglers();
        proof {
            lemma_straggler_names_len(self.actors@, self.actors@.len() as int);
        }
        if stragglers.len() == 0 {
            proof {
                assert(stragglers@.map_values(|s: String| s@).len() == 0);
            }
            Ok(())
        } else {
            Err(stragglers)
        }
    }
}

/// The straggler list over the first `n` actors is empty exactly when
/// each of those actors has stopped.
pub proof fn lemma_straggler_names_len(s: Seq<ActorHandle>, n: int)
    requires
        0 <= n <= s.len(),
    ensures
        straggler_names(s, n).len() == 0 <==> (forall|i: int|
            0 <= i < n ==> s[i].state is Stopped),
    decreases n,
{
    if n > 0 {
        lemma_straggler_names_len(s, n - 1);
    }
}

} // verus!
