use vstd::prelude::*;

verus! {

/// An opaque application-level error token carried through a stream.
///
/// Failure payloads are application data; the runtime only routes them, so a
/// plain code stands for whatever the application attaches to a failure.
#[derive(Clone, Copy, PartialEq, Eq, Structural, Debug)]
pub struct StreamError {
    pub code: u64,
}

/// An event delivered to a stream stage by its neighbours.
///
/// `A` is the element type flowing in from upstream; `C` is the stage's
/// out-of-band control message type.
pub enum LogicEvent<A, C> {
    /// Upstream has been attached; delivered exactly once, first.
    Started,
    /// Downstream signals demand for one element.
    Pulled,
    /// Upstream delivers one element.
    Pushed(A),
    /// Downstream no longer wants elements.
    Cancelled,
    /// Upstream will produce no more elements.
    Stopped,
    /// An out-of-band control message addressed to this stage.
    Forwarded(C),
}

/// The reaction a stage hands back to the driver after an event.
///
/// `B` is the element type flowing out to downstream; `C` is the stage's
/// out-of-band control message type.
pub enum Action<B, C> {
    /// Ask upstream for the next element.
    Pull,
    /// Deliver one element downstream.
    Push(B),
    /// Terminate: with an error, propagate failure; else complete normally.
    Complete(Option<StreamError>),
    /// Terminate upstream only; downstream stays attached.
    Cancel,
    /// Deliver a control message to this stage on its next run.
    Forward(C),
    /// No reaction.
    Stay,
}

} // verus!
