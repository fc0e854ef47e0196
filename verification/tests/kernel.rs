use heartbeat_kernel::config::Config;
use heartbeat_kernel::graph::Graph;
use heartbeat_kernel::heartbeat::HeartbeatActor;
use heartbeat_kernel::shutdown::ShutdownCoordinator;
use heartbeat_kernel::shutdown::ShutdownPhase;
use heartbeat_kernel::supervisor::ExecutionModel;
use heartbeat_kernel::supervisor::RunState;
use heartbeat_kernel::supervisor::Supervisor;
use heartbeat_kernel::supervisor::WaitDecision;
use heartbeat_kernel::timer::Timer;

#[test]
fn heartbeat_three_beats_counts_down() {
    let logs = HeartbeatActor::run_to_shutdown(3);
    assert_eq!(logs, vec![3, 2, 1]);
}

#[test]
fn heartbeat_zero_beats_requests_shutdown_first_tick() {
    let mut actor = HeartbeatActor::new(0);
    let action = actor.on_tick();
    assert_eq!(action.log, None);
    assert!(action.request_shutdown);
    assert_eq!(HeartbeatActor::run_to_shutdown(0), Vec::<u64>::new());
}

#[test]
fn heartbeat_tick_logs_then_requests_at_zero() {
    let mut actor = HeartbeatActor::new(2);
    let first = actor.on_tick();
    assert_eq!(first.log, Some(2));
    assert!(!first.request_shutdown);
    let second = actor.on_tick();
    assert_eq!(second.log, Some(1));
    assert!(second.request_shutdown);
    assert_eq!(actor.count, 0);
}

#[test]
fn heartbeat_counter_strictly_decreasing_never_negative() {
    let logs = HeartbeatActor::run_to_shutdown(60);
    assert_eq!(logs.len(), 60);
    for (i, v) in logs.iter().enumerate() {
        assert_eq!(*v, 60 - i as u64);
        assert!(*v >= 1);
    }
    for w in logs.windows(2) {
        assert_eq!(w[1], w[0] - 1);
    }
}

#[test]
fn timer_schedule_is_drift_free() {
    let mut t = Timer::new(100, 10);
    assert_eq!(t.deadline, 110);
    for k in 1..=5u64 {
        let before = t.deadline;
        t.fire();
        assert_eq!(t.deadline, before + 10);
        assert_eq!(t.fires, k);
        assert_eq!(t.deadline - t.origin, (k + 1) * 10);
    }
    assert_eq!(t.deadline, 160);
}

#[test]
fn timer_is_due_at_deadline() {
    let t = Timer::new(0, 25);
    assert!(!t.is_due(0));
    assert!(!t.is_due(24));
    assert!(t.is_due(25));
    assert!(t.is_due(26));
}

#[test]
fn coordinator_barrier_gates_the_signal() {
    let mut c = ShutdownCoordinator::new(3);
    assert_eq!(c.phase, ShutdownPhase::Idle);
    assert!(!c.is_effective());
    c.request();
    assert_eq!(c.phase, ShutdownPhase::Requested);
    assert!(!c.is_effective());
    c.request();
    assert_eq!(c.phase, ShutdownPhase::Requested);
    c.request();
    assert_eq!(c.phase, ShutdownPhase::Effective);
    assert!(c.is_effective());
    c.request();
    assert_eq!(c.phase, ShutdownPhase::Effective);
    assert_eq!(c.requests, 3);
}

#[test]
fn coordinator_phases_are_monotonic() {
    let rank = |p: ShutdownPhase| match p {
        ShutdownPhase::Idle => 0,
        ShutdownPhase::Requested => 1,
        ShutdownPhase::Effective => 2,
        ShutdownPhase::Draining => 3,
        ShutdownPhase::Stopped => 4,
    };
    let mut c = ShutdownCoordinator::new(1);
    let mut last = rank(c.phase);
    c.request();
    assert!(rank(c.phase) >= last);
    last = rank(c.phase);
    c.begin_draining();
    assert_eq!(c.phase, ShutdownPhase::Draining);
    assert!(rank(c.phase) >= last);
    last = rank(c.phase);
    c.mark_stopped();
    assert_eq!(c.phase, ShutdownPhase::Stopped);
    assert!(rank(c.phase) >= last);
}

#[test]
fn is_running_honors_the_veto() {
    let mut c = ShutdownCoordinator::new(1);
    assert!(c.is_running(false));
    assert!(c.is_running(true));
    c.request();
    assert!(c.is_effective());
    assert!(!c.is_running(false));
    assert!(c.is_running(true));
}

#[test]
fn shutdown_outcome_ok_when_all_stopped() {
    let mut s = Supervisor::new();
    s.register("A".to_string(), ExecutionModel::DedicatedThread, true);
    s.register("B".to_string(), ExecutionModel::CooperativeSlot, false);
    s.start();
    assert_eq!(s.actors[0].state, RunState::Running);
    s.request_stop_all();
    assert_eq!(s.actors[1].state, RunState::StopRequested);
    s.mark_stopped(0);
    s.mark_stopped(1);
    assert_eq!(s.shutdown_outcome(), Ok(()));
}

#[test]
fn shutdown_outcome_names_the_stragglers() {
    let mut s = Supervisor::new();
    s.register("A".to_string(), ExecutionModel::DedicatedThread, false);
    s.register("B".to_string(), ExecutionModel::DedicatedThread, false);
    s.register("C".to_string(), ExecutionModel::CooperativeSlot, false);
    s.start();
    s.request_stop_all();
    s.mark_stopped(1);
    assert_eq!(
        s.shutdown_outcome(),
        Err(vec!["A".to_string(), "C".to_string()])
    );
}

#[test]
fn wait_ends_at_stop_or_grace_whichever_first() {
    let mut s = Supervisor::new();
    s.register("A".to_string(), ExecutionModel::DedicatedThread, false);
    s.register("B".to_string(), ExecutionModel::DedicatedThread, false);
    s.start();
    s.request_stop_all();
    assert_eq!(s.wait_step(false), WaitDecision::KeepWaiting);
    s.mark_stopped(0);
    assert_eq!(s.wait_step(false), WaitDecision::KeepWaiting);
    assert_eq!(
        s.wait_step(true),
        WaitDecision::ForceStop(vec!["B".to_string()])
    );
    s.mark_stopped(1);
    assert_eq!(s.wait_step(false), WaitDecision::CleanStop);
    assert_eq!(s.wait_step(true), WaitDecision::CleanStop);
}

#[test]
fn restart_discards_prior_counter() {
    let mut actor = HeartbeatActor::new(5);
    actor.on_tick();
    actor.on_tick();
    assert_eq!(actor.count, 3);
    let relaunched = actor.restart(5);
    assert_eq!(relaunched.count, 5);
    assert_eq!(relaunched, HeartbeatActor::new(5));
}

#[test]
fn supervisor_records_the_restart() {
    let mut s = Supervisor::new();
    s.register("A".to_string(), ExecutionModel::DedicatedThread, true);
    s.start();
    s.mark_stopped(0);
    s.record_fault_and_restart(0);
    assert_eq!(s.actors[0].state, RunState::Running);
    assert_eq!(s.actors[0].restarts, 1);
    assert_eq!(s.actors[0].name, "A");
    s.record_fault_and_restart(0);
    assert_eq!(s.actors[0].restarts, 2);
}

#[test]
fn graph_scenario_three_beats_clean_exit() {
    let config = Config::new(10, 3);
    let mut g = Graph::build(config);
    assert_eq!(g.supervisor.actors[0].name, "HEARTBEAT");
    assert!(g.supervisor.actors[0].monitored);
    let report = g.run();
    assert_eq!(report.logs, vec![3, 2, 1]);
    assert_eq!(report.outcome, Ok(()));
    assert_eq!(g.coordinator.phase, ShutdownPhase::Stopped);
}

#[test]
fn config_carries_the_two_flags() {
    let c = Config::new(1000, 60);
    assert_eq!(c.rate_ms, 1000);
    assert_eq!(c.beats, 60);
}
