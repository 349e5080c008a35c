use pantomime::stream::detached::Detached;
use pantomime::stream::flow::{Filter, TakeWhile, Transform};
use pantomime::stream::pipeline::{
    run_detached_first, run_filter_to_vec, run_take_while_to_vec, run_to_vec,
};
use pantomime::stream::proto::{Action, LogicEvent, StreamError};
use pantomime::stream::sink::Sink;
use pantomime::stream::source::Sources;

#[test]
fn iterator_source_to_collecting_sink() {
    let source = Sources::iterator(vec![1u64, 2, 3, 4, 5]);
    let out = run_to_vec(source);
    assert_eq!(out, vec![1, 2, 3, 4, 5]);
}

#[test]
fn empty_source_completes_with_nothing() {
    let source = Sources::empty::<u64>();
    let out = run_to_vec(source);
    assert_eq!(out, Vec::<u64>::new());
}

#[test]
fn single_source_yields_one_element() {
    let source = Sources::single(9u64);
    let out = run_to_vec(source);
    assert_eq!(out, vec![9]);
}

#[test]
fn filter_keeps_even_elements() {
    let source = Sources::iterator(vec![1u64, 2, 3, 4, 5]);
    let flow = Filter::new(|x: &u64| *x % 2 == 0);
    let out = run_filter_to_vec(source, flow);
    assert_eq!(out, vec![2, 4]);
}

#[test]
fn take_while_stops_at_first_rejection() {
    let mut items = Vec::new();
    for i in 1u64..=100 {
        items.push(i);
    }
    let source = Sources::iterator(items);
    let flow = TakeWhile::new(|x: &u64| *x < 10);
    let out = run_take_while_to_vec(source, flow);
    assert_eq!(out, vec![1, 2, 3, 4, 5, 6, 7, 8, 9]);
}

#[test]
fn detached_map_first_cancels_early() {
    let mut items = Vec::new();
    for i in 1u64..=20 {
        items.push(i);
    }
    let source = Sources::iterator(items);
    let flow = Transform::new(|x: u64| x * 2);
    let (result, taken) = run_detached_first(source, 2, flow);
    assert_eq!(result, Some(2));
    // At most the buffer bound plus one in-flight request left the source.
    assert!(taken <= 3);
}

#[test]
fn filter_stage_answers_each_event() {
    let mut flow = Filter::new(|x: &u64| *x % 2 == 0);
    assert!(matches!(flow.receive(LogicEvent::Pulled), Action::Pull));
    assert!(matches!(flow.receive(LogicEvent::Pushed(4)), Action::Push(4)));
    assert!(matches!(flow.receive(LogicEvent::Pushed(3)), Action::Pull));
    assert!(matches!(flow.receive(LogicEvent::Cancelled), Action::Cancel));
    assert!(matches!(flow.receive(LogicEvent::Stopped), Action::Complete(None)));
    assert!(matches!(flow.receive(LogicEvent::Started), Action::Stay));
}

#[test]
fn take_while_stage_completes_on_rejection() {
    let mut flow = TakeWhile::new(|x: &u64| *x < 10);
    assert!(matches!(flow.receive(LogicEvent::Pushed(9)), Action::Push(9)));
    assert!(matches!(flow.receive(LogicEvent::Pushed(10)), Action::Complete(None)));
    assert!(matches!(flow.receive(LogicEvent::Cancelled), Action::Complete(None)));
}

#[test]
fn map_stage_transforms_elements() {
    let mut flow = Transform::new(|x: u64| x + 100);
    assert!(matches!(flow.receive(LogicEvent::Pushed(1)), Action::Push(101)));
    assert!(matches!(flow.receive(LogicEvent::Pulled), Action::Pull));
}

#[test]
fn repeat_source_answers_every_pull() {
    let mut source = Sources::repeat(7u64);
    assert!(matches!(source.receive(LogicEvent::Pulled), Action::Push(7)));
    assert!(matches!(source.receive(LogicEvent::Pulled), Action::Push(7)));
    assert!(matches!(source.receive(LogicEvent::Cancelled), Action::Complete(None)));
}

#[test]
fn first_sink_cancels_after_one_element() {
    let mut sink = Sink::first();
    assert!(matches!(sink.receive(LogicEvent::Started), Action::Pull));
    assert!(matches!(sink.receive(LogicEvent::Pushed(5u64)), Action::Cancel));
    assert_eq!(sink.got, Some(5));
    assert!(matches!(sink.receive(LogicEvent::Pushed(6u64)), Action::Cancel));
    assert_eq!(sink.got, Some(5));
}

#[test]
fn for_each_sink_pulls_for_every_element() {
    let mut sink = Sink::for_each(|_x: u64| ());
    assert!(matches!(sink.receive(LogicEvent::Started), Action::Pull));
    assert!(matches!(sink.receive(LogicEvent::Pushed(1)), Action::Pull));
    assert!(matches!(sink.receive(LogicEvent::Stopped), Action::Stay));
}

#[test]
fn detached_buffer_never_exceeds_capacity() {
    let mut boundary: Detached<u64> = Detached::new(2);
    let started = boundary.on_started();
    assert_eq!(started.request_upstream, 2);
    let first = boundary.on_pushed(10);
    assert!(first.deliver.is_none());
    assert_eq!(first.request_upstream, 0);
    let second = boundary.on_pushed(11);
    assert!(second.deliver.is_none());
    assert_eq!(boundary.buffer.len(), 2);
    // Both credits are used up; the boundary asks for more only when a
    // slot frees.
    let pulled = boundary.on_pulled();
    assert_eq!(pulled.deliver, Some(10));
    assert_eq!(pulled.request_upstream, 1);
    assert_eq!(boundary.buffer.len(), 1);
}

#[test]
fn detached_completes_only_after_drain() {
    let mut boundary: Detached<u64> = Detached::new(2);
    boundary.on_started();
    boundary.on_pushed(1);
    boundary.on_pushed(2);
    let done = boundary.on_upstream_complete();
    // Two elements are still buffered: completion must wait.
    assert!(!done.complete_downstream);
    let first = boundary.on_pulled();
    assert_eq!(first.deliver, Some(1));
    assert!(!first.complete_downstream);
    let second = boundary.on_pulled();
    assert_eq!(second.deliver, Some(2));
    assert!(!second.complete_downstream);
    let third = boundary.on_pulled();
    assert!(third.deliver.is_none());
    assert!(third.complete_downstream);
    // And never a second completion.
    let fourth = boundary.on_pulled();
    assert!(!fourth.complete_downstream);
}

#[test]
fn detached_cancel_propagates_upstream() {
    let mut boundary: Detached<u64> = Detached::new(2);
    boundary.on_started();
    boundary.on_pushed(1);
    let reaction = boundary.on_downstream_cancel();
    assert!(reaction.cancel_upstream);
    assert_eq!(boundary.buffer.len(), 0);
    // An element still in flight is discarded and the cancel repeated.
    let late = boundary.on_pushed(2);
    assert!(late.cancel_upstream);
    assert_eq!(boundary.buffer.len(), 0);
}

#[test]
fn detached_failure_drops_buffer_and_fails_downstream() {
    let mut boundary: Detached<u64> = Detached::new(2);
    boundary.on_started();
    boundary.on_pushed(1);
    let reaction = boundary.on_upstream_failed(StreamError { code: 42 });
    assert_eq!(reaction.fail_downstream, Some(StreamError { code: 42 }));
    assert_eq!(boundary.buffer.len(), 0);
}

#[test]
fn detached_first_on_empty_source_completes_with_nothing() {
    let source = Sources::empty::<u64>();
    let flow = Transform::new(|x: u64| x * 2);
    let (result, taken) = run_detached_first(source, 2, flow);
    assert_eq!(result, None);
    assert_eq!(taken, 0);
}
