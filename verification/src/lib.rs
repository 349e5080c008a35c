//! The core of an actor-oriented concurrency runtime with a reactive
//! stream layer on top of it, with its protocols stated as contracts and
//! proved: the actor lifecycle and supervision machine, the shard
//! scheduling discipline, the watcher's shutdown bookkeeping, the timer
//! wheel, and the demand-driven stream protocol with its detached
//! boundary. The threaded runtime that multiplexes this core onto
//! workers, clocks and process signals lives outside the library and
//! only carries out what these state machines decide.

pub mod actor;
pub mod cfg;
pub mod timer;
pub mod mailbox;
pub mod stream;
