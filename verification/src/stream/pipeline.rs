use vstd::prelude::*;

use crate::stream::detached::Detached;
use crate::stream::flow::{Filter, TakeWhile, Transform};
use crate::stream::proto::{Action, LogicEvent};
use crate::stream::sink::{First, Sink, ToVec};
use crate::stream::source::Iterator;

verus! {

/// The elements of `s` whose matching entry in `keep` is true, in order.
pub open spec fn filtered<A>(s: Seq<A>, keep: Seq<bool>) -> Seq<A>
    recommends
        s.len() == keep.len(),
    decreases s.len(),
{
    if s.len() == 0 {
        Seq::<A>::empty()
    } else {
        filtered(s.drop_last(), keep.drop_last()) + if keep.last() {
            seq![s.last()]
        } else {
            Seq::<A>::empty()
        }
    }
}

/// Runs `Source → Sink.to_vec()` to completion as one synchronous
/// island: the sink's demand is trampolined to the source and each pushed
/// element straight back down, one in flight at a time, until the source
/// completes. Yields every source element in order.
pub fn run_to_vec<A>(source: Iterator<A>) -> (out: Vec<A>)
    ensures
        out@ == source.items@,
{
    let ghost orig = source.items@;
    let mut src = source;
    let mut sink: ToVec<A> = Sink::to_vec();
    let _attach_demand = sink.receive(LogicEvent::Started);
    let mut running = true;
    while running
        invariant
            running ==> sink.collected@ + src.items@ == orig,
            !running ==> sink.collected@ == orig,
        decreases src.items@.len() + (if running {
            1int
        } else {
            0int
        }),
    {
        let ghost items_before = src.items@;
        let ghost collected_before = sink.collected@;
        let action = src.receive(LogicEvent::Pulled);
        match action {
            Action::Push(element) => {
                let _demand = sink.receive(LogicEvent::Pushed(element));
                proof {
                    assert(collected_before.push(items_before[0]) + items_before.drop_first()
                        =~= collected_before + items_before);
                }
            },
            Action::Complete(_) => {
                let _stay = sink.receive(LogicEvent::Stopped);
                running = false;
                proof {
                    assert(collected_before + items_before =~= collected_before);
                }
            },
            _ => {
                proof {
                    assert(false);
                }
            },
        }
    }
    sink.collected
}

/// Runs `Source → Flow.filter(p) → Sink.to_vec()` to completion.
///
/// Yields exactly the source elements the predicate accepted, in order:
/// there is a sequence of verdicts, one per source element and each a
/// possible answer of the predicate on that element, such that the output
/// is the elements with a positive verdict.
pub fn run_filter_to_vec<A, F: Fn(&A) -> bool>(source: Iterator<A>, flow: Filter<A, F>) -> (out:
    Vec<A>)
    requires
        forall|x: &A| #[trigger] call_requires(flow.filter, (x,)),
    ensures
        exists|keep: Seq<bool>|
            {
                &&& keep.len() == source.items@.len()
                &&& (forall|i: int|
                    0 <= i < keep.len() ==> #[trigger] call_ensures(
                        flow.filter,
                        (&source.items@[i],),
                        keep[i],
                    ))
                &&& out@ == filtered(source.items@, keep)
            },
{
    let ghost orig = source.items@;
    let mut src = source;
    let mut flt = flow;
    let mut sink: ToVec<A> = Sink::to_vec();
    let ghost mut keep: Seq<bool> = Seq::empty();
    let ghost mut taken: int = 0;
    let _attach_demand = sink.receive(LogicEvent::Started);
    let mut running = true;
    while running
        invariant
            forall|x: &A| #[trigger] call_requires(flt.filter, (x,)),
            flt.filter == flow.filter,
            0 <= taken <= orig.len(),
            keep.len() == taken,
            forall|i: int|
                0 <= i < taken ==> #[trigger] call_ensures(flow.filter, (&orig[i],), keep[i]),
            running ==> src.items@ == orig.skip(taken),
            running ==> sink.collected@ == filtered(orig.take(taken), keep),
            !running ==> taken == orig.len() && sink.collected@ == filtered(orig, keep),
        decreases orig.len() - taken + (if running {
            1int
        } else {
            0int
        }),
    {
        let ghost items_before = src.items@;
        let action = src.receive(LogicEvent::Pulled);
        match action {
            Action::Push(element) => {
                let ghost e = items_before[0];
                proof {
                    assert(e == orig[taken]);
                }
                let verdict = flt.receive(LogicEvent::Pushed(element));
                let ghost keep_before = keep;
                let ghost collected_before = sink.collected@;
                proof {
                    let k = choose|k: bool|
                        {
                            &&& call_ensures(flow.filter, (&e,), k)
                            &&& verdict == (if k {
                                Action::<A, ()>::Push(e)
                            } else {
                                Action::<A, ()>::Pull
                            })
                        };
                    keep = keep.push(k);
                    taken = taken + 1;
                    assert(orig.take(taken) =~= orig.take(taken - 1).push(e));
                    assert(orig.take(taken).drop_last() =~= orig.take(taken - 1));
                    assert(keep.drop_last() =~= keep_before);
                    assert(orig.take(taken).last() == e);
                    assert(keep.last() == k);
                    assert(filtered(orig.take(taken), keep) == filtered(
                        orig.take(taken - 1),
                        keep_before,
                    ) + if k {
                        seq![e]
                    } else {
                        Seq::<A>::empty()
                    });
                    assert(src.items@ =~= orig.skip(taken));
                }
                match verdict {
                    Action::Push(element) => {
                        let _demand = sink.receive(LogicEvent::Pushed(element));
                        proof {
                            assert(sink.collected@ =~= collected_before + seq![e]);
                        }
                    },
                    Action::Pull => {
                        proof {
                            assert(sink.collected@ =~= collected_before + Seq::<A>::empty());
                        }
                    },
                    _ => {
                        proof {
                            assert(false);
                        }
                    },
                }
            },
            Action::Complete(_) => {
                let _flow_done = flt.receive(LogicEvent::Stopped);
                let _stay = sink.receive(LogicEvent::Stopped);
                running = false;
                proof {
                    assert(taken == orig.len());
                    assert(orig.take(taken) =~= orig);
                }
            },
            _ => {
                proof {
                    assert(false);
                }
            },
        }
    }
    sink.collected
}

/// Runs `Source → Flow.take_while(p) → Sink.to_vec()` to completion.
///
/// Yields the longest prefix of the source on which the predicate held;
/// the first element that fails it completes the stream downstream, and
/// the driver then cancels the still-live source, so nothing after that
/// element ever leaves it.
pub fn run_take_while_to_vec<A, F: Fn(&A) -> bool>(
    source: Iterator<A>,
    flow: TakeWhile<A, F>,
) -> (out: Vec<A>)
    requires
        forall|x: &A| #[trigger] call_requires(flow.while_fn, (x,)),
    ensures
        exists|n: int|
            {
                &&& 0 <= n <= source.items@.len()
                &&& out@ == source.items@.take(n)
                &&& (forall|i: int|
                    0 <= i < n ==> #[trigger] call_ensures(
                        flow.while_fn,
                        (&source.items@[i],),
                        true,
                    ))
                &&& (n < source.items@.len() ==> call_ensures(
                    flow.while_fn,
                    (&source.items@[n],),
                    false,
                ))
            },
{
    let ghost orig = source.items@;
    let mut src = source;
    let mut flt = flow;
    let mut sink: ToVec<A> = Sink::to_vec();
    let ghost mut taken: int = 0;
    let _attach_demand = sink.receive(LogicEvent::Started);
    let mut running = true;
    while running
        invariant
            forall|x: &A| #[trigger] call_requires(flt.while_fn, (x,)),
            flt.while_fn == flow.while_fn,
            0 <= taken <= orig.len(),
            forall|i: int| 0 <= i < taken ==> #[trigger] call_ensures(flow.while_fn, (&orig[i],), true),
            sink.collected@ == orig.take(taken),
            running ==> src.items@ == orig.skip(taken),
            !running ==> (taken == orig.len() || call_ensures(flow.while_fn, (&orig[taken],), false)),
        decreases orig.len() - taken + (if running {
            1int
        } else {
            0int
        }),
    {
        let ghost items_before = src.items@;
        let ghost collected_before = sink.collected@;
        let action = src.receive(LogicEvent::Pulled);
        match action {
            Action::Push(element) => {
                let ghost e = items_before[0];
                let verdict = flt.receive(LogicEvent::Pushed(element));
                match verdict {
                    Action::Push(element) => {
                        let _demand = sink.receive(LogicEvent::Pushed(element));
                        proof {
                            taken = taken + 1;
                            assert(sink.collected@ =~= orig.take(taken));
                            assert(src.items@ =~= orig.skip(taken));
                        }
                    },
                    Action::Complete(_) => {
                        // The predicate rejected this element: the flow
                        // completed downstream while upstream is still
                        // live, so the driver cancels the source.
                        let _cancelled = src.receive(LogicEvent::Cancelled);
                        let _stay = sink.receive(LogicEvent::Stopped);
                        running = false;
                    },
                    _ => {
                        proof {
                            assert(false);
                        }
                    },
                }
            },
            Action::Complete(_) => {
                let _flow_done = flt.receive(LogicEvent::Stopped);
                let _stay = sink.receive(LogicEvent::Stopped);
                running = false;
                proof {
                    assert(taken == orig.len());
                }
            },
            _ => {
                proof {
                    assert(false);
                }
            },
        }
    }
    proof {
        assert(sink.collected@ == orig.take(taken));
    }
    sink.collected
}

/// Runs `Source → Flow.detached(K) → Flow.map(f) → Sink.first()`.
///
/// Returns the mapped first source element (or nothing for an empty
/// source) together with how many elements left the source. The boundary
/// prefetches one buffer's worth; the sink cancels after its element, so
/// at most the buffer bound plus the one in-flight request ever leave the
/// source.
pub fn run_detached_first<A, B, F: Fn(A) -> B>(
    source: Iterator<A>,
    capacity: usize,
    flow: Transform<A, B, F>,
) -> (r: (Option<B>, usize))
    requires
        1 <= capacity < usize::MAX,
        forall|x: A| #[trigger] call_requires(flow.map_fn, (x,)),
    ensures
        r.1 <= capacity + 1,
        r.1 <= source.items@.len(),
        if source.items@.len() == 0 {
            r.0 is None
        } else {
            exists|b: B|
                {
                    &&& #[trigger] call_ensures(flow.map_fn, (source.items@[0],), b)
                    &&& r.0 == Some(b)
                }
        },
{
    let ghost orig = source.items@;
    let mut src = source;
    let mut det = Detached::<A>::new(capacity);
    let mut map_flow = flow;
    let mut sink: First<B> = Sink::first();
    let mut taken: usize = 0;

    // The downstream half attaches; the boundary primes the pipeline.
    let started = det.on_started();
    let mut credit: usize = started.request_upstream;
    let mut upstream_live = true;
    let mut early_complete = false;

    // Fill phase: the upstream island answers the boundary's requests
    // until the credit is spent or the source completes.
    while credit > 0 && upstream_live
        invariant
            det.wf(),
            det.started,
            !det.cancelled,
            det.capacity == capacity,
            det.demand == 0,
            det.delivered@ == 0,
            det.dropped@ == 0,
            det.pulls_in@ == 0,
            det.accepted@ == taken,
            taken <= orig.len(),
            upstream_live ==> !det.upstream_done,
            upstream_live ==> det.outstanding() == credit,
            upstream_live ==> det.buffer@ == orig.take(taken as int),
            upstream_live ==> src.items@ == orig.skip(taken as int),
            !upstream_live ==> det.upstream_done,
            !upstream_live ==> det.buffer@ == orig && taken == orig.len(),
            early_complete ==> !upstream_live && orig.len() == 0,
            !det.done_forwarded || early_complete,
            forall|x: A| #[trigger] call_requires(map_flow.map_fn, (x,)),
            map_flow.map_fn == flow.map_fn,
        decreases credit + (if upstream_live {
            1int
        } else {
            0int
        }),
    {
        let ghost items_before = src.items@;
        let action = src.receive(LogicEvent::Pulled);
        match action {
            Action::Push(element) => {
                let ghost e = items_before[0];
                let reaction = det.on_pushed(element);
                taken = taken + 1;
                credit = credit - 1;
                proof {
                    assert(det.buffer@ =~= orig.take(taken as int));
                    assert(src.items@ =~= orig.skip(taken as int));
                }
            },
            Action::Complete(_) => {
                let reaction = det.on_upstream_complete();
                upstream_live = false;
                early_complete = reaction.complete_downstream;
                proof {
                    assert(orig.take(taken as int) =~= orig);
                }
            },
            _ => {
                proof {
                    assert(false);
                }
            },
        }
    }

    // Downstream island: the sink attaches and demands one element.
    let _attach_demand = sink.receive(LogicEvent::Started);
    if early_complete {
        // The source was empty: completion already crossed the boundary.
        let _map_done = map_flow.receive(LogicEvent::Stopped);
        let _stay = sink.receive(LogicEvent::Stopped);
        return (None, taken);
    }
    let _map_pull = map_flow.receive(LogicEvent::Pulled);
    let reaction = det.on_pulled();
    match reaction.deliver {
        Some(element) => {
            proof {
                assert(orig.len() > 0);
            }
            let mapped = map_flow.receive(LogicEvent::Pushed(element));
            match mapped {
                Action::Push(mapped_element) => {
                    let sink_action = sink.receive(LogicEvent::Pushed(mapped_element));
                    // The sink has its element and cancels; the cancel
                    // travels back through the map stage to the boundary.
                    let _map_cancel = map_flow.receive(LogicEvent::Cancelled);
                    let boundary_cancel = det.on_downstream_cancel();
                    // One request was already in flight past the
                    // boundary; the source may answer it before the
                    // cancel reaches it.
                    if upstream_live {
                        if reaction.request_upstream > 0 {
                            let late_action = src.receive(LogicEvent::Pulled);
                            match late_action {
                                Action::Push(late_element) => {
                                    taken = taken + 1;
                                    let dropped_rx = det.on_pushed(late_element);
                                    let _done = src.receive(LogicEvent::Cancelled);
                                },
                                Action::Complete(_) => {
                                    let _rx = det.on_upstream_complete();
                                },
                                _ => {
                                    proof {
                                        assert(false);
                                    }
                                },
                            }
                        } else {
                            let _done = src.receive(LogicEvent::Cancelled);
                        }
                    }
                    (sink.got, taken)
                },
                _ => {
                    proof {
                        assert(false);
                    }
                    (None, taken)
                },
            }
        },
        None => {
            // No element could ever be delivered: the source completed
            // during the fill phase with nothing buffered.
            proof {
                assert(reaction.complete_downstream);
                assert(orig.len() == 0);
            }
            let _map_done = map_flow.receive(LogicEvent::Stopped);
            let _stay = sink.receive(LogicEvent::Stopped);
            (None, taken)
        },
    }
}

} // verus!
