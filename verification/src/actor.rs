pub mod cell;
pub mod behavior;
pub mod system;
pub mod watcher;
pub mod shard;
