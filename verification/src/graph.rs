//! The composition root: builds the actor set bound to the shared
//! configuration, and drives one deterministic run of the kernel — start,
//! heartbeat ticks, shutdown request, drain, stop — to its outcome.

use vstd::prelude::*;

use crate::config::Config;
use crate::heartbeat::expected_logs;
use crate::heartbeat::HeartbeatActor;
use crate::shutdown::ShutdownCoordinator;
use crate::supervisor::ExecutionModel;
use crate::supervisor::Supervisor;

verus! {

/// The whole actor system: the shared configuration, the supervisor with
/// its registered actors, and the process-wide shutdown coordinator.
pub struct Graph {
    /// Immutable configuration shared by every actor.
    pub config: Config,
    /// The supervisor owning the registered actors.
    pub supervisor: Supervisor,
    /// The process-wide shutdown signal.
    pub coordinator: ShutdownCoordinator,
}

/// What one deterministic run of the graph produced: the heartbeat trail
/// and the outcome of the final wait.
pub struct RunReport {
    /// The counter values the heartbeat actor logged, in order.
    pub logs: Vec<u64>,
    /// Clean shutdown, or the names of the actors that failed to stop.
    pub outcome: Result<(), Vec<String>>,
}

impl Graph {
    /// Builds the graph for the heartbeat demonstration: one monitored
    /// heartbeat actor on a dedicated thread, an idle coordinator with no
    /// barrier (the first request takes effect), and the shared
    /// configuration.
    pub fn build(config: Config) -> (g: Graph)
        requires
            config.wf(),
        ensures
            g.config == config,
            g.supervisor.actors@.len() == 1,
            g.supervisor.actors@[0].name@ == "HEARTBEAT"@,
            g.supervisor.actors@[0].execution is DedicatedThread,
            g.supervisor.actors@[0].monitored,
            g.supervisor.actors@[0].state is Registered,
            g.supervisor.actors@[0].restarts == 0,
            g.coordinator.wf(),
            g.coordinator.barrier == 1,
            !g.coordinator.effective(),
    {
        let mut supervisor = Supervisor::new();
        supervisor.register(
            String::from_str("HEARTBEAT"),
            ExecutionModel::DedicatedThread,
            true,
        );
        let coordinator = ShutdownCoordinator::new(1);
        Graph { config, supervisor, coordinator }
    }

    /// One deterministic run of the kernel, with the heartbeat actor as
    /// the only actor: the supervisor starts it, the actor ticks until it
    /// requests shutdown, the request trips the coordinator, the
    /// supervisor asks the actor to stop, the actor complies, and the
    /// wait reports a clean shutdown. The heartbeat trail is exactly
    /// `beats, beats - 1, ..., 1`.
    pub fn run(&mut self) -> (report: RunReport)
        requires
            old(self).config.wf(),
            old(self).supervisor.actors@.len() == 1,
            old(self).supervisor.actors@[0].state is Registered,
            old(self).coordinator.wf(),
            old(self).coordinator.barrier == 1,
            !old(self).coordinator.effective(),
        ensures
            final(self).config == old(self).config,
            report.logs@ == expected_logs(old(self).config.beats),
            report.outcome is Ok,
            final(self).coordinator.wf(),
            final(self).coordinator.phase is Stopped,
            final(self).supervisor.all_stopped(),
    {
        self.supervisor.start();
        let beats = self.config.beats;
        let logs = HeartbeatActor::run_to_shutdown(beats);
        self.coordinator.request();
        self.supervisor.request_stop_all();
        self.coordinator.begin_draining();
        self.supervisor.mark_stopped(0);
        self.coordinator.mark_stopped();
        let outcome = self.supervisor.shutdown_outcome();
        RunReport { logs, outcome }
    }
}

} // verus!
