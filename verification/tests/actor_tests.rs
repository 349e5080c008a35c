use pantomime::actor::behavior::{Actor, ActorCell, ActorContext};
use pantomime::actor::cell::{
    ActorType, CellEffect, CellState, FailureAction, FailureError, Lifecycle, Signal,
};
use pantomime::actor::shard::{process_batch, ActorShard};
use pantomime::actor::system::{
    assign_shard, control_step, signal_decision, ActorSystemMsg, ControlAction, IdAllocator,
};
use pantomime::actor::cell::run_stop_sequence;
use pantomime::actor::watcher::ActorWatcher;
use pantomime::cfg::{ActorSystemConfig, SIGINT, SIGTERM};

struct StopInStarted {
    got_message: bool,
}

impl Actor<u64> for StopInStarted {
    fn receive(&mut self, _msg: u64, _ctx: &mut ActorContext) {
        self.got_message = true;
    }

    fn receive_signal(&mut self, signal: Signal, ctx: &mut ActorContext) {
        if matches!(signal, Signal::Started) {
            ctx.stop();
        }
    }

    fn supervise(&mut self, _error: &FailureError) -> FailureAction {
        FailureAction::Stop
    }
}

struct Quiet;

impl Actor<u64> for Quiet {
    fn receive(&mut self, _msg: u64, _ctx: &mut ActorContext) {}

    fn receive_signal(&mut self, _signal: Signal, _ctx: &mut ActorContext) {}

    fn supervise(&mut self, _error: &FailureError) -> FailureAction {
        FailureAction::Stop
    }
}

#[test]
fn actor_stopping_in_started_notifies_parent_and_drops_messages() {
    let mut cell = ActorCell::new(100, 1, ActorType::Root, StopInStarted { got_message: false });
    let effects = cell.initialize();
    assert!(effects.iter().any(
        |e| matches!(e, CellEffect::ChildStoppedSignal { parent: 1, child: 100 })
    ));
    assert!(matches!(cell.state.lifecycle, Lifecycle::Stopped));
    // A user message sent afterwards never reaches the behavior.
    let (delivered, late_effects) = cell.deliver(42);
    assert!(!delivered);
    assert!(late_effects.is_empty());
    assert!(!cell.actor.got_message);
}

#[test]
fn stopped_cell_processes_no_further_user_message() {
    let mut cell = ActorCell::new(101, 1, ActorType::Root, Quiet);
    cell.initialize();
    let (delivered, _) = cell.deliver(1);
    assert!(delivered);
    let stop_effects = cell.state.request_stop();
    assert!(matches!(cell.state.lifecycle, Lifecycle::Stopped));
    assert!(stop_effects.iter().any(
        |e| matches!(e, CellEffect::ChildStoppedSignal { parent: 1, child: 101 })
    ));
    let (delivered_after, _) = cell.deliver(2);
    assert!(!delivered_after);
}

#[test]
fn watcher_gets_exactly_one_termination_notice() {
    let mut state = CellState::new(100, 1, ActorType::Root);
    state.mark_started();
    state.watch(7);
    // Watching twice registers once.
    state.watch(7);
    let effects = state.request_stop();
    let notices: Vec<_> = effects
        .iter()
        .filter(|e| matches!(e, CellEffect::TerminationNotice { watcher: 7, target: 100 }))
        .collect();
    assert_eq!(notices.len(), 1);
    // A repeated watch after the stop is never answered again.
    let late = state.watch(7);
    assert!(late.is_empty());
    // A fresh watcher of an already-stopped target is answered at once.
    let fresh = state.watch(8);
    assert_eq!(fresh.len(), 1);
    assert!(matches!(
        fresh[0],
        CellEffect::TerminationNotice { watcher: 8, target: 100 }
    ));
    let again = state.watch(8);
    assert!(again.is_empty());
}

#[test]
fn children_are_stopped_in_reverse_creation_order() {
    let mut state = CellState::new(100, 1, ActorType::Root);
    state.mark_started();
    state.register_child(101);
    state.register_child(102);
    state.register_child(103);
    let effects = state.request_stop();
    assert!(matches!(state.lifecycle, Lifecycle::Stopping));
    assert_eq!(effects.len(), 3);
    assert!(matches!(effects[0], CellEffect::StopChild { child: 103 }));
    assert!(matches!(effects[1], CellEffect::StopChild { child: 102 }));
    assert!(matches!(effects[2], CellEffect::StopChild { child: 101 }));
    // The stop completes only after every child reported back.
    assert!(state.child_stopped(103).is_empty());
    assert!(state.child_stopped(101).is_empty());
    let done = state.child_stopped(102);
    assert!(matches!(state.lifecycle, Lifecycle::Stopped));
    assert!(done.iter().any(
        |e| matches!(e, CellEffect::ChildStoppedSignal { parent: 1, child: 100 })
    ));
}

#[test]
fn failure_escalates_to_parent_and_resume_continues() {
    let mut state = CellState::new(100, 1, ActorType::Root);
    state.mark_started();
    state.mark_failed();
    let effects = state.apply_supervision(
        FailureAction::Escalate,
        FailureError { code: 5 },
    );
    assert_eq!(effects.len(), 1);
    assert!(matches!(
        effects[0],
        CellEffect::Escalate { parent: 1, error: FailureError { code: 5 } }
    ));
    assert!(matches!(state.lifecycle, Lifecycle::Failed));
    let resumed = state.apply_supervision(FailureAction::Resume, FailureError { code: 5 });
    assert!(resumed.is_empty());
    assert!(matches!(state.lifecycle, Lifecycle::Running));
}

#[test]
fn watcher_announces_quiescence_once_drained() {
    let mut watcher = ActorWatcher::new();
    watcher.register(100);
    watcher.register(101);
    let (targets, already_done) = watcher.drain_system();
    assert_eq!(targets, vec![100, 101]);
    assert!(!already_done);
    assert!(!watcher.deregister(100));
    assert!(watcher.deregister(101));
}

#[test]
fn stop_system_also_marks_system_actors() {
    let mut watcher = ActorWatcher::new();
    let (targets, done) = watcher.stop_system();
    assert!(targets.is_empty());
    assert!(done);
    assert!(watcher.stopping);
}

#[test]
fn shard_is_scheduled_at_most_once() {
    let mut shard = ActorShard::new();
    assert!(shard.try_schedule());
    // A second sender loses the race and does not submit again.
    assert!(!shard.try_schedule());
    // Pending work keeps the shard scheduled.
    assert!(shard.release(true));
    assert!(!shard.try_schedule());
    // With nothing pending the flag clears and the next sender wins.
    assert!(!shard.release(false));
    assert!(shard.try_schedule());
}

#[test]
fn batches_drain_the_queue_in_order() {
    let mut queue = vec![1u64, 2, 3, 4, 5, 6, 7];
    let first = process_batch(&mut queue, 5);
    assert_eq!(first, vec![1, 2, 3, 4, 5]);
    assert_eq!(queue, vec![6, 7]);
    let second = process_batch(&mut queue, 5);
    assert_eq!(second, vec![6, 7]);
    assert!(queue.is_empty());
}

#[test]
fn ids_are_allocated_monotonically_from_one_hundred() {
    let mut ids = IdAllocator::new();
    assert_eq!(ids.allocate(), 100);
    assert_eq!(ids.allocate(), 101);
    assert_eq!(ids.allocate(), 102);
}

#[test]
fn actors_spread_over_shards_by_id() {
    assert_eq!(assign_shard(100, 4), Some(0));
    assert_eq!(assign_shard(103, 4), Some(3));
    assert_eq!(assign_shard(104, 4), Some(0));
    assert_eq!(assign_shard(100, 0), None);
}

#[test]
fn control_messages_map_to_their_actions() {
    assert!(matches!(
        control_step(&ActorSystemMsg::Drain),
        ControlAction::AskWatcherDrain
    ));
    assert!(matches!(
        control_step(&ActorSystemMsg::Stop),
        ControlAction::AskWatcherStop
    ));
    assert!(matches!(
        control_step(&ActorSystemMsg::Done),
        ControlAction::StopTimerAndExit
    ));
}

#[test]
fn shutdown_signals_fix_the_exit_code() {
    let config = ActorSystemConfig::new();
    assert_eq!(signal_decision(SIGINT, &config.posix_shutdown_signals), Some(130));
    assert_eq!(signal_decision(SIGTERM, &config.posix_shutdown_signals), Some(143));
    assert_eq!(signal_decision(1, &config.posix_shutdown_signals), None);
}

#[test]
fn configuration_defaults_match_the_contract() {
    let config = ActorSystemConfig::with_parallelism(8);
    assert_eq!(config.shards, 8);
    assert_eq!(config.default_dispatcher_parallelism, 8);
    assert!(config.default_dispatcher_task_queue_fifo);
    assert_eq!(config.ticker_interval_ms, 10);
    assert_eq!(config.throughput, 5);
    assert_eq!(config.posix_shutdown_signals, vec![SIGINT, SIGTERM]);
    assert!(!config.process_exit);
}

#[test]
fn family_stop_runs_children_before_parent() {
    let mut parent = CellState::new(100, 1, ActorType::Root);
    parent.mark_started();
    parent.watch(9);
    let mut children = Vec::new();
    for id in [101, 102, 103] {
        parent.register_child(id);
        let mut child = CellState::new(id, 100, ActorType::Child);
        child.mark_started();
        children.push(child);
    }
    let (stopped, effects) = run_stop_sequence(&mut parent, children);
    assert!(matches!(parent.lifecycle, Lifecycle::Stopped));
    assert_eq!(stopped.len(), 3);
    assert!(stopped.iter().all(|c| matches!(c.lifecycle, Lifecycle::Stopped)));
    // Children stop in reverse creation order, before the parent.
    assert_eq!(stopped[0].id, 103);
    assert_eq!(stopped[1].id, 102);
    assert_eq!(stopped[2].id, 101);
    // The parent's own announcement is the very last effect.
    assert!(matches!(
        effects.last(),
        Some(CellEffect::ChildStoppedSignal { parent: 1, child: 100 })
    ));
    let notices: Vec<_> = effects
        .iter()
        .filter(|e| matches!(e, CellEffect::TerminationNotice { watcher: 9, target: 100 }))
        .collect();
    assert_eq!(notices.len(), 1);
}
