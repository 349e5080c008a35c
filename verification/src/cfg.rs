use vstd::prelude::*;

verus! {

/// The interrupt signal number.
pub const SIGINT: i32 = 2;

/// The termination signal number.
pub const SIGTERM: i32 = 15;

/// The options an actor system is built with. The core consumes this
/// record; how it is assembled — environment, file, command line — is
/// the embedding program's business.
pub struct ActorSystemConfig {
    /// How many shards user actors are spread over.
    pub shards: usize,
    /// Worker threads of the default dispatcher.
    pub default_dispatcher_parallelism: usize,
    /// Worker-local queues run oldest-first when true, newest-first
    /// otherwise.
    pub default_dispatcher_task_queue_fifo: bool,
    /// Granularity of the timer wheel, in milliseconds.
    pub ticker_interval_ms: u64,
    /// Most messages drained from one actor per shard visit.
    pub throughput: usize,
    /// Log the configuration when the system starts.
    pub log_config_on_start: bool,
    /// Process signals the embedding program forwards to the watcher.
    pub posix_signals: Vec<i32>,
    /// The signals among them that shut the system down.
    pub posix_shutdown_signals: Vec<i32>,
    /// Whether reaching quiescence exits the process.
    pub process_exit: bool,
}

impl ActorSystemConfig {
    /// A usable configuration: at least one worker, a running timer and
    /// room for progress on every shard visit.
    pub open spec fn wf(self) -> bool {
        &&& self.default_dispatcher_parallelism >= 1
        &&& self.ticker_interval_ms >= 1
        &&& self.throughput >= 1
    }

    /// The defaults: one shard per worker, oldest-first queues, a 10 ms
    /// timer tick, five messages per shard visit, and shutdown on
    /// interrupt or termination.
    pub fn new() -> (r: Self)
        ensures
            r.wf(),
            r.shards == r.default_dispatcher_parallelism,
            r.default_dispatcher_task_queue_fifo,
            r.ticker_interval_ms == 10,
            r.throughput == 5,
            !r.log_config_on_start,
            r.posix_shutdown_signals@ =~= seq![SIGINT, SIGTERM],
            r.posix_signals@ =~= seq![SIGINT, SIGTERM],
            !r.process_exit,
    {
        Self::with_parallelism(1)
    }

    /// The defaults for a given worker count; the embedding program
    /// passes the machine's processor count here.
    pub fn with_parallelism(parallelism: usize) -> (r: Self)
        requires
            parallelism >= 1,
        ensures
            r.wf(),
            r.shards == parallelism,
            r.default_dispatcher_parallelism == parallelism,
            r.default_dispatcher_task_queue_fifo,
            r.ticker_interval_ms == 10,
            r.throughput == 5,
            !r.log_config_on_start,
            r.posix_shutdown_signals@ =~= seq![SIGINT, SIGTERM],
            r.posix_signals@ =~= seq![SIGINT, SIGTERM],
            !r.process_exit,
    {
        let mut shutdown: Vec<i32> = Vec::new();
        shutdown.push(SIGINT);
        shutdown.push(SIGTERM);
        let mut signals: Vec<i32> = Vec::new();
        signals.push(SIGINT);
        signals.push(SIGTERM);
        ActorSystemConfig {
            shards: parallelism,
            default_dispatcher_parallelism: parallelism,
            default_dispatcher_task_queue_fifo: true,
            ticker_interval_ms: 10,
            throughput: 5,
            log_config_on_start: false,
            posix_signals: signals,
            posix_shutdown_signals: shutdown,
            process_exit: false,
        }
    }
}

} // verus!
