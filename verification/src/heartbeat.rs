//! The heartbeat actor's behavior: on every tick it logs its counter,
//! decrements it, and requests a coordinated shutdown once the counter
//! reaches zero. The counter is actor-local state; a restart always
//! begins from a fresh counter.

use vstd::prelude::*;

verus! {

/// The counter values a heartbeat actor logs over a full run that starts
/// from `beats`: `beats, beats - 1, ..., 1`, one per tick, and nothing
/// when `beats` is zero.
pub open spec fn expected_logs(beats: u64) -> Seq<u64> {
    Seq::new(beats as nat, |i: int| (beats - i) as u64)
}

/// What one tick of the heartbeat actor asks of its surroundings: which
/// counter value to log, if any, and whether to request a system shutdown.
#[derive(Clone, Copy, PartialEq, Eq, Structural, Debug)]
pub struct TickAction {
    /// The counter value to log this tick, or nothing when the counter was
    /// already exhausted at the start of the tick.
    pub log: Option<u64>,
    /// Whether to request the process-wide shutdown this tick.
    pub request_shutdown: bool,
}

/// The heartbeat actor's private state: the number of beats still owed.
#[derive(Clone, Copy, PartialEq, Eq, Structural, Debug)]
pub struct HeartbeatActor {
    /// Beats remaining before the actor requests shutdown.
    pub count: u64,
}

impl HeartbeatActor {
    /// The state of an actor that has done no work yet and owes `beats`
    /// beats.
    pub open spec fn fresh(beats: u64) -> HeartbeatActor {
        HeartbeatActor { count: beats }
    }

    /// A fresh actor owing `beats` beats.
    pub fn new(beats: u64) -> (a: HeartbeatActor)
        ensures
            a == HeartbeatActor::fresh(beats),
            a.count == beats,
    {
        HeartbeatActor { count: beats }
    }

    /// Builds the state for a relaunch after a fault — an error return or
    /// a panic mid-iteration. The faulted state is consumed and plays no
    /// part in the result: the relaunched actor owes the full `beats`
    /// again, exactly as a first launch would.
    pub fn restart(self, beats: u64) -> (a: HeartbeatActor)
        ensures
            a == HeartbeatActor::fresh(beats),
            a.count == beats,
    {
        HeartbeatActor { count: beats }
    }

    /// One tick of the heartbeat loop. While the counter is positive the
    /// actor logs it and decrements it by exactly 1 — the counter never
    /// goes negative — and it requests shutdown on the tick that brings
    /// the counter to zero. With the counter already at zero it only
    /// requests shutdown, so a zero-beat actor requests shutdown on its
    /// first tick.
    pub fn on_tick(&mut self) -> (a: TickAction)
        ensures
            old(self).count > 0 ==> {
                &&& final(self).count == old(self).count - 1
                &&& a.log == Some(old(self).count)
                &&& a.request_shutdown == (final(self).count == 0)
            },
            old(self).count == 0 ==> {
                &&& final(self).count == 0
                &&& a.log is None
                &&& a.request_shutdown
            },
            final(self).count <= old(self).count,
    {
        if self.count > 0 {
            let logged: u64 = self.count;
            self.count = self.count - 1;
            TickAction { log: Some(logged), request_shutdown: self.count == 0 }
        } else {
            TickAction { log: None, request_shutdown: true }
        }
    }

    /// Runs the heartbeat loop to the point of requesting shutdown,
    /// collecting the logged counter values. The actor logs exactly
    /// `beats` values, counting strictly down from `beats` to 1, and then
    /// requests shutdown; with zero beats it logs nothing and requests
    /// shutdown on the first tick.
    pub fn run_to_shutdown(beats: u64) -> (logs: Vec<u64>)
        ensures
            logs@ == expected_logs(beats),
            logs@.len() == beats,
    {
        let mut actor = HeartbeatActor::new(beats);
        let mut logs: Vec<u64> = Vec::new();
        let mut requested: bool = false;
        while !requested
            invariant
                actor.count == beats - logs@.len(),
                logs@.len() <= beats,
                logs@ == expected_logs(beats).take(logs@.len() as int),
                requested ==> logs@.len() == beats,
            decreases actor.count + 1 - if requested { 1int } else { 0int },
        {
            let ghost done: int = logs@.len() as int;
            let action = actor.on_tick();
            if let Some(v) = action.log {
                logs.push(v);
                proof {
                    assert(expected_logs(beats).take(done + 1)
                        =~= expected_logs(beats).take(done).push((beats - done) as u64));
                }
            }
            requested = action.request_shutdown;
        }
        proof {
            assert(logs@ =~= expected_logs(beats));
        }
        logs
    }
}

/// The heartbeat trace is exactly the strictly decreasing run from
/// `beats` down to 1: it has one entry per beat, entry `i` is
/// `beats - i`, every entry is positive — the counter never goes
/// negative — and consecutive entries decrease by exactly 1.
pub proof fn lemma_expected_logs_counts_down(beats: u64)
    ensures
        expected_logs(beats).len() == beats,
        forall|i: int|
            0 <= i < beats ==> #[trigger] expected_logs(beats)[i] == beats - i,
        forall|i: int| 0 <= i < beats ==> #[trigger] expected_logs(beats)[i] >= 1,
        forall|i: int|
            0 <= i < beats - 1 ==> #[trigger] expected_logs(beats)[i + 1]
                == expected_logs(beats)[i] - 1,
{
}

} // verus!
