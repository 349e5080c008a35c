use vstd::prelude::*;

use crate::stream::proto::StreamError;

verus! {

/// What one step of the detached boundary asks its surroundings to do.
///
/// The boundary itself never talks to its neighbours directly; every step
/// returns one of these records and the driver (or the hosting actor)
/// carries the requests out.
pub struct DetachedReaction<A> {
    /// How many fresh pulls to send upstream.
    pub request_upstream: usize,
    /// An element to push downstream, if one became deliverable.
    pub deliver: Option<A>,
    /// Forward normal completion downstream.
    pub complete_downstream: bool,
    /// Forward a cancel upstream.
    pub cancel_upstream: bool,
    /// Forward a failure downstream.
    pub fail_downstream: Option<StreamError>,
}

/// The asynchronous boundary between two independently scheduled halves
/// of a stream.
///
/// The boundary owns a bounded buffer of capacity `capacity`, counts the
/// downstream demand it has not yet satisfied, and keeps upstream busy by
/// holding the credit equation: while both sides are live, the buffered
/// elements plus the outstanding upstream requests always equal the
/// capacity. The ghost counters record the full traffic through the
/// boundary, so conservation of elements and demand are part of its
/// well-formedness.
pub struct Detached<A> {
    /// The buffer bound K.
    pub capacity: usize,
    /// Buffered elements, front first.
    pub buffer: Vec<A>,
    /// Downstream demand not yet satisfied.
    pub demand: usize,
    /// The downstream side has attached.
    pub started: bool,
    /// Upstream has completed or failed; no more elements will arrive.
    pub upstream_done: bool,
    /// Downstream has cancelled; elements are discarded.
    pub cancelled: bool,
    /// A terminal signal (completion or failure) has been forwarded
    /// downstream; none will be forwarded again.
    pub done_forwarded: bool,
    /// How many elements upstream has pushed into the boundary.
    pub accepted: Ghost<nat>,
    /// How many elements the boundary has pushed downstream.
    pub delivered: Ghost<nat>,
    /// How many elements were discarded after a cancel or a failure.
    pub dropped: Ghost<nat>,
    /// How many pulls the boundary has sent upstream.
    pub requested: Ghost<nat>,
    /// How many pulls downstream has sent into the boundary.
    pub pulls_in: Ghost<nat>,
}

impl<A> Detached<A> {
    /// Upstream requests that have not been answered by a push yet.
    pub open spec fn outstanding(self) -> nat {
        (self.requested@ - self.accepted@) as nat
    }

    /// The boundary's invariant; every operation preserves it.
    pub open spec fn wf(self) -> bool {
        &&& self.capacity >= 1
        &&& self.requested@ >= self.accepted@
        &&& self.accepted@ == self.delivered@ + self.dropped@ + self.buffer@.len()
        &&& self.buffer@.len() + self.outstanding() <= self.capacity
        &&& (self.started && !self.upstream_done && !self.cancelled ==> self.buffer@.len()
            + self.outstanding() == self.capacity)
        &&& (!self.started ==> {
            &&& self.requested@ == 0
            &&& self.accepted@ == 0
            &&& self.buffer@.len() == 0
            &&& self.demand == 0
            &&& !self.upstream_done
            &&& !self.cancelled
            &&& !self.done_forwarded
        })
        &&& (self.cancelled ==> self.buffer@.len() == 0)
        &&& (!self.cancelled && !self.upstream_done ==> self.dropped@ == 0)
        &&& (!self.cancelled ==> self.pulls_in@ == self.delivered@ + self.demand)
        &&& self.delivered@ <= self.pulls_in@
    }

    /// A fresh boundary with buffer bound `capacity`.
    pub fn new(capacity: usize) -> (r: Self)
        requires
            capacity >= 1,
        ensures
            r.wf(),
            r.capacity == capacity,
            !r.started,
    {
        Detached {
            capacity,
            buffer: Vec::new(),
            demand: 0,
            started: false,
            upstream_done: false,
            cancelled: false,
            done_forwarded: false,
            accepted: Ghost(0),
            delivered: Ghost(0),
            dropped: Ghost(0),
            requested: Ghost(0),
            pulls_in: Ghost(0),
        }
    }

    /// Downstream has attached: prime the pipeline by requesting a full
    /// buffer's worth of elements from upstream.
    pub fn on_started(&mut self) -> (r: DetachedReaction<A>)
        requires
            old(self).wf(),
            !old(self).started,
        ensures
            final(self).wf(),
            final(self).started,
            final(self).capacity == old(self).capacity,
            final(self).requested@ == old(self).capacity,
            final(self).buffer@ == old(self).buffer@,
            final(self).demand == old(self).demand,
            !final(self).cancelled && !final(self).upstream_done && !final(self).done_forwarded,
            final(self).accepted@ == old(self).accepted@,
            final(self).delivered@ == old(self).delivered@,
            final(self).dropped@ == old(self).dropped@,
            final(self).pulls_in@ == old(self).pulls_in@,
            r.request_upstream == old(self).capacity,
            r.deliver is None && !r.complete_downstream && !r.cancel_upstream && r.fail_downstream
                is None,
    {
        self.started = true;
        self.requested = Ghost(self.capacity as nat);
        DetachedReaction {
            request_upstream: self.capacity,
            deliver: None,
            complete_downstream: false,
            cancel_upstream: false,
            fail_downstream: None,
        }
    }

    /// Downstream asks for one element.
    ///
    /// If the buffer holds one, the front element leaves at once and the
    /// freed slot is turned into a fresh upstream request; if upstream is
    /// already done and the buffer has drained, completion is forwarded —
    /// and only then, so nothing buffered is ever lost to a completion.
    pub fn on_pulled(&mut self) -> (r: DetachedReaction<A>)
        requires
            old(self).wf(),
            old(self).started,
            !old(self).cancelled,
            old(self).demand < usize::MAX,
        ensures
            final(self).wf(),
            final(self).capacity == old(self).capacity,
            final(self).started && !final(self).cancelled,
            final(self).upstream_done == old(self).upstream_done,
            final(self).pulls_in@ == old(self).pulls_in@ + 1,
            final(self).accepted@ == old(self).accepted@,
            final(self).dropped@ == old(self).dropped@,
            final(self).requested@ == old(self).requested@ + r.request_upstream,
            final(self).done_forwarded == (old(self).done_forwarded || r.complete_downstream),
            !r.cancel_upstream && r.fail_downstream is None,
            r.complete_downstream ==> final(self).buffer@.len() == 0,
            if old(self).buffer@.len() > 0 {
                &&& r.deliver == Some(old(self).buffer@[0])
                &&& final(self).buffer@ == old(self).buffer@.drop_first()
                &&& final(self).delivered@ == old(self).delivered@ + 1
                &&& final(self).demand == old(self).demand
                &&& !r.complete_downstream
                &&& r.request_upstream == (if !old(self).upstream_done {
                    1int
                } else {
                    0int
                })
            } else {
                &&& r.deliver is None
                &&& r.request_upstream == 0
                &&& final(self).buffer@ == old(self).buffer@
                &&& final(self).delivered@ == old(self).delivered@
                &&& final(self).demand == old(self).demand + 1
                &&& r.complete_downstream == (old(self).upstream_done && !old(
                    self,
                ).done_forwarded)
            },
    {
        self.demand = self.demand + 1;
        self.pulls_in = Ghost(self.pulls_in@ + 1);
        if self.buffer.len() > 0 {
            let element = self.buffer.remove(0);
            self.demand = self.demand - 1;
            self.delivered = Ghost(self.delivered@ + 1);
            let request: usize = if !self.upstream_done {
                self.requested = Ghost(self.requested@ + 1);
                1
            } else {
                0
            };
            DetachedReaction {
                request_upstream: request,
                deliver: Some(element),
                complete_downstream: false,
                cancel_upstream: false,
                fail_downstream: None,
            }
        } else if self.upstream_done && !self.done_forwarded {
            self.done_forwarded = true;
            DetachedReaction {
                request_upstream: 0,
                deliver: None,
                complete_downstream: true,
                cancel_upstream: false,
                fail_downstream: None,
            }
        } else {
            DetachedReaction {
                request_upstream: 0,
                deliver: None,
                complete_downstream: false,
                cancel_upstream: false,
                fail_downstream: None,
            }
        }
    }

    /// Upstream delivers one element against an outstanding request.
    ///
    /// With waiting demand the element (or an older buffered one) leaves
    /// at once; otherwise it is buffered. After a cancel the element is
    /// discarded and the cancel is repeated upstream.
    pub fn on_pushed(&mut self, element: A) -> (r: DetachedReaction<A>)
        requires
            old(self).wf(),
            old(self).started,
            old(self).outstanding() >= 1,
            !old(self).upstream_done,
        ensures
            final(self).wf(),
            final(self).capacity == old(self).capacity,
            final(self).started && !final(self).upstream_done,
            final(self).cancelled == old(self).cancelled,
            final(self).accepted@ == old(self).accepted@ + 1,
            final(self).buffer@.len() <= old(self).capacity,
            final(self).pulls_in@ == old(self).pulls_in@,
            final(self).requested@ == old(self).requested@ + r.request_upstream,
            final(self).done_forwarded == old(self).done_forwarded,
            !r.complete_downstream && r.fail_downstream is None,
            if old(self).cancelled {
                &&& r.cancel_upstream
                &&& r.deliver is None
                &&& r.request_upstream == 0
                &&& final(self).buffer@.len() == 0
                &&& final(self).dropped@ == old(self).dropped@ + 1
                &&& final(self).demand == old(self).demand
            } else if old(self).demand > 0 {
                &&& !r.cancel_upstream
                &&& r.deliver == Some(old(self).buffer@.push(element)[0])
                &&& final(self).buffer@ == old(self).buffer@.push(element).drop_first()
                &&& final(self).delivered@ == old(self).delivered@ + 1
                &&& final(self).demand == old(self).demand - 1
                &&& final(self).dropped@ == old(self).dropped@
                &&& r.request_upstream == 1
            } else {
                &&& !r.cancel_upstream
                &&& r.deliver is None
                &&& r.request_upstream == 0
                &&& final(self).buffer@ == old(self).buffer@.push(element)
                &&& final(self).delivered@ == old(self).delivered@
                &&& final(self).dropped@ == old(self).dropped@
                &&& final(self).demand == 0
            },
    {
        self.accepted = Ghost(self.accepted@ + 1);
        if self.cancelled {
            self.dropped = Ghost(self.dropped@ + 1);
            DetachedReaction {
                request_upstream: 0,
                deliver: None,
                complete_downstream: false,
                cancel_upstream: true,
                fail_downstream: None,
            }
        } else if self.demand > 0 {
            self.buffer.push(element);
            let front = self.buffer.remove(0);
            self.demand = self.demand - 1;
            self.delivered = Ghost(self.delivered@ + 1);
            self.requested = Ghost(self.requested@ + 1);
            DetachedReaction {
                request_upstream: 1,
                deliver: Some(front),
                complete_downstream: false,
                cancel_upstream: false,
                fail_downstream: None,
            }
        } else {
            self.buffer.push(element);
            DetachedReaction {
                request_upstream: 0,
                deliver: None,
                complete_downstream: false,
                cancel_upstream: false,
                fail_downstream: None,
            }
        }
    }

    /// Upstream completed normally.
    ///
    /// Completion is forwarded downstream only once the buffer has
    /// drained; with elements still buffered it is merely remembered.
    pub fn on_upstream_complete(&mut self) -> (r: DetachedReaction<A>)
        requires
            old(self).wf(),
            old(self).started,
            !old(self).upstream_done,
        ensures
            final(self).wf(),
            final(self).capacity == old(self).capacity,
            final(self).upstream_done,
            final(self).buffer@ == old(self).buffer@,
            final(self).demand == old(self).demand,
            final(self).started == old(self).started,
            final(self).cancelled == old(self).cancelled,
            final(self).accepted@ == old(self).accepted@,
            final(self).delivered@ == old(self).delivered@,
            final(self).dropped@ == old(self).dropped@,
            final(self).requested@ == old(self).requested@,
            final(self).pulls_in@ == old(self).pulls_in@,
            final(self).done_forwarded == (old(self).done_forwarded || r.complete_downstream),
            r.deliver is None && !r.cancel_upstream && r.fail_downstream is None
                && r.request_upstream == 0,
            r.complete_downstream ==> final(self).buffer@.len() == 0,
            r.complete_downstream == (old(self).buffer@.len() == 0 && !old(self).cancelled && !old(
                self,
            ).done_forwarded),
    {
        self.upstream_done = true;
        if self.buffer.len() == 0 && !self.cancelled && !self.done_forwarded {
            self.done_forwarded = true;
            DetachedReaction {
                request_upstream: 0,
                deliver: None,
                complete_downstream: true,
                cancel_upstream: false,
                fail_downstream: None,
            }
        } else {
            DetachedReaction {
                request_upstream: 0,
                deliver: None,
                complete_downstream: false,
                cancel_upstream: false,
                fail_downstream: None,
            }
        }
    }

    /// Upstream failed.
    ///
    /// Buffered elements are discarded — a stage that saw a failure must
    /// not push further elements — and the failure is forwarded
    /// downstream at once, unless downstream is already gone.
    pub fn on_upstream_failed(&mut self, error: StreamError) -> (r: DetachedReaction<A>)
        requires
            old(self).wf(),
            old(self).started,
            !old(self).upstream_done,
        ensures
            final(self).wf(),
            final(self).capacity == old(self).capacity,
            final(self).upstream_done,
            final(self).buffer@.len() == 0,
            final(self).delivered@ == old(self).delivered@,
            final(self).started == old(self).started,
            final(self).cancelled == old(self).cancelled,
            final(self).demand == old(self).demand,
            final(self).accepted@ == old(self).accepted@,
            final(self).requested@ == old(self).requested@,
            final(self).pulls_in@ == old(self).pulls_in@,
            final(self).dropped@ == old(self).dropped@ + old(self).buffer@.len(),
            r.deliver is None && !r.cancel_upstream && !r.complete_downstream
                && r.request_upstream == 0,
            r.fail_downstream == (if !old(self).cancelled && !old(self).done_forwarded {
                Some(error)
            } else {
                Option::<StreamError>::None
            }),
    {
        self.upstream_done = true;
        let ghost n = self.buffer@.len();
        self.buffer.clear();
        self.dropped = Ghost(self.dropped@ + n);
        if !self.cancelled && !self.done_forwarded {
            self.done_forwarded = true;
            DetachedReaction {
                request_upstream: 0,
                deliver: None,
                complete_downstream: false,
                cancel_upstream: false,
                fail_downstream: Some(error),
            }
        } else {
            DetachedReaction {
                request_upstream: 0,
                deliver: None,
                complete_downstream: false,
                cancel_upstream: false,
                fail_downstream: None,
            }
        }
    }

    /// Downstream cancelled: the buffer is dropped and the cancel is
    /// forwarded upstream at once.
    pub fn on_downstream_cancel(&mut self) -> (r: DetachedReaction<A>)
        requires
            old(self).wf(),
            old(self).started,
            !old(self).cancelled,
        ensures
            final(self).wf(),
            final(self).capacity == old(self).capacity,
            final(self).cancelled,
            final(self).buffer@.len() == 0,
            final(self).delivered@ == old(self).delivered@,
            final(self).started == old(self).started,
            final(self).upstream_done == old(self).upstream_done,
            final(self).demand == old(self).demand,
            final(self).accepted@ == old(self).accepted@,
            final(self).requested@ == old(self).requested@,
            final(self).pulls_in@ == old(self).pulls_in@,
            final(self).dropped@ == old(self).dropped@ + old(self).buffer@.len(),
            final(self).done_forwarded == old(self).done_forwarded,
            r.cancel_upstream,
            r.deliver is None && !r.complete_downstream && r.fail_downstream is None
                && r.request_upstream == 0,
    {
        self.cancelled = true;
        let ghost n = self.buffer@.len();
        self.buffer.clear();
        self.dropped = Ghost(self.dropped@ + n);
        DetachedReaction {
            request_upstream: 0,
            deliver: None,
            complete_downstream: false,
            cancel_upstream: true,
            fail_downstream: None,
        }
    }
}

/// The detached buffer bound: a well-formed boundary never buffers more
/// than its capacity.
pub proof fn lemma_detached_buffer_bound<A>(d: Detached<A>)
    requires
        d.wf(),
    ensures
        d.buffer@.len() <= d.capacity,
{
}

/// Conservation of elements through the detached boundary: every element
/// upstream ever pushed is accounted for — delivered downstream, still
/// buffered, or (only after a cancel or a failure) discarded. In a run
/// without cancel or failure nothing is discarded, so the elements pushed
/// downstream are exactly those received minus those still buffered.
pub proof fn lemma_detached_conservation<A>(d: Detached<A>)
    requires
        d.wf(),
    ensures
        d.accepted@ == d.delivered@ + d.dropped@ + d.buffer@.len(),
        !d.cancelled && !d.upstream_done ==> d.accepted@ == d.delivered@ + d.buffer@.len(),
{
}

/// Conservation of demand through the detached boundary: the pulls the
/// boundary has forwarded upstream never exceed the pulls received from
/// downstream by more than the buffer bound, and while both sides are
/// live the boundary keeps upstream exactly one buffer's worth ahead.
pub proof fn lemma_detached_demand_bound<A>(d: Detached<A>)
    requires
        d.wf(),
        !d.cancelled,
        !d.upstream_done,
    ensures
        d.requested@ <= d.pulls_in@ + d.capacity,
        d.started ==> d.requested@ == d.accepted@ + d.capacity - d.buffer@.len(),
{
}

} // verus!
