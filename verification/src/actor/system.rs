use vstd::prelude::*;

use crate::actor::cell::ActorId;
use crate::cfg::ActorSystemConfig;

verus! {

/// The first id handed to a user actor; everything below is reserved for
/// system actors such as the timer and the watcher.
pub const FIRST_USER_ACTOR_ID: usize = 100;

/// The top level type that describes a runnable actor system. The
/// threaded runtime around it owns the dispatcher and the control
/// channel; everything it decides, it decides through the functions
/// here and the cell, shard, watcher and timer state machines.
pub struct ActorSystem {
    pub config: ActorSystemConfig,
}

impl ActorSystem {
    /// A system description with the default configuration.
    pub fn new() -> (r: Self)
        ensures
            r.config.wf(),
    {
        ActorSystem { config: ActorSystemConfig::new() }
    }
}

/// The process-global actor id counter: ids are handed out one by one,
/// strictly increasing, and never reused.
pub struct IdAllocator {
    pub next: ActorId,
}

impl IdAllocator {
    /// An allocator that starts at the first user actor id.
    pub fn new() -> (r: Self)
        ensures
            r.next == FIRST_USER_ACTOR_ID,
    {
        IdAllocator { next: FIRST_USER_ACTOR_ID }
    }

    /// An allocator for a reserved id range, used for system actors.
    pub fn with_initial(initial: ActorId) -> (r: Self)
        ensures
            r.next == initial,
    {
        IdAllocator { next: initial }
    }

    /// The next id: each call returns a strictly larger id than every
    /// call before it.
    pub fn allocate(&mut self) -> (id: ActorId)
        requires
            old(self).next < usize::MAX,
        ensures
            id == old(self).next,
            final(self).next == old(self).next + 1,
    {
        let id = self.next;
        self.next = self.next + 1;
        id
    }
}

/// Which shard a user actor lands on: actors are spread over the shard
/// list by their id; with no shards configured the system shard (no
/// index) takes them.
pub fn assign_shard(actor_id: ActorId, shard_count: usize) -> (r: Option<usize>)
    ensures
        shard_count == 0 ==> r is None,
        shard_count > 0 ==> r == Some(actor_id % shard_count) && r.unwrap() < shard_count,
{
    if shard_count == 0 {
        None
    } else {
        Some(actor_id % shard_count)
    }
}

/// A message on the system control channel.
pub enum ActorSystemMsg {
    /// Ask every user actor to stop; announce when they have.
    Drain,
    /// Like `Drain`, and the system actors follow.
    Stop,
    /// The watcher reports that the system is quiescent.
    Done,
}

/// What the control loop does with one control message.
pub enum ControlAction {
    /// Hand the drain request to the watcher.
    AskWatcherDrain,
    /// Hand the stop request to the watcher.
    AskWatcherStop,
    /// Quiescent: stop the timer and leave the loop.
    StopTimerAndExit,
}

/// One step of the system control loop: each control message maps to
/// exactly one action.
pub fn control_step(msg: &ActorSystemMsg) -> (r: ControlAction)
    ensures
        msg is Drain ==> r is AskWatcherDrain,
        msg is Stop ==> r is AskWatcherStop,
        msg is Done ==> r is StopTimerAndExit,
{
    match msg {
        ActorSystemMsg::Drain => ControlAction::AskWatcherDrain,
        ActorSystemMsg::Stop => ControlAction::AskWatcherStop,
        ActorSystemMsg::Done => ControlAction::StopTimerAndExit,
    }
}

/// Whether `signals` holds `signal`.
pub fn contains_signal(signals: &Vec<i32>, signal: i32) -> (r: bool)
    ensures
        r == signals@.contains(signal),
{
    let mut i: usize = 0;
    while i < signals.len()
        invariant
            i <= signals@.len(),
            forall|k: int| 0 <= k < i ==> signals@[k] != signal,
        decreases signals@.len() - i,
    {
        if signals[i] == signal {
            return true;
        }
        i = i + 1;
    }
    false
}

/// The control loop's reaction to one polled process signal: a signal on
/// the shutdown list drains the system and fixes the eventual exit code
/// as 128 plus the signal number; any other signal only reaches the
/// watcher as information.
pub fn signal_decision(signal: i32, shutdown_signals: &Vec<i32>) -> (r: Option<i32>)
    requires
        0 <= signal <= 1000,
    ensures
        r is Some <==> shutdown_signals@.contains(signal),
        shutdown_signals@.contains(signal) ==> r == Some((128 + signal) as i32),
{
    if contains_signal(shutdown_signals, signal) {
        Some(128 + signal)
    } else {
        None
    }
}

} // verus!
