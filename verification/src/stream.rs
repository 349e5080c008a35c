pub mod proto;
pub mod source;
pub mod flow;
pub mod sink;
pub mod detached;
pub mod pipeline;
