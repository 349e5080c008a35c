use vstd::prelude::*;

use crate::stream::proto::{Action, LogicEvent, StreamError};

verus! {

/// A source stage that emits a fixed sequence of elements, front first.
///
/// The elements still to be emitted are held in `items`; each `Pulled`
/// event hands the front element downstream until none are left, after
/// which the stage completes.
pub struct Iterator<A> {
    pub items: Vec<A>,
}

impl<A> Iterator<A> {
    pub fn new(items: Vec<A>) -> (r: Self)
        ensures
            r.items@ == items@,
    {
        Iterator { items }
    }

    /// One step of the source's state machine.
    ///
    /// Demand pops the front element and pushes it; exhaustion or a
    /// downstream cancel completes the stage; everything else is ignored.
    pub fn receive(&mut self, event: LogicEvent<(), ()>) -> (r: Action<A, ()>)
        ensures
            match event {
                LogicEvent::Pulled => {
                    if old(self).items@.len() > 0 {
                        &&& final(self).items@ == old(self).items@.drop_first()
                        &&& r == Action::<A, ()>::Push(old(self).items@[0])
                    } else {
                        &&& final(self).items@ == old(self).items@
                        &&& r == Action::<A, ()>::Complete(Option::<StreamError>::None)
                    }
                },
                LogicEvent::Cancelled => {
                    &&& final(self).items@ == old(self).items@
                    &&& r == Action::<A, ()>::Complete(Option::<StreamError>::None)
                },
                _ => {
                    &&& final(self).items@ == old(self).items@
                    &&& r == Action::<A, ()>::Stay
                },
            },
    {
        match event {
            LogicEvent::Pulled => {
                if self.items.len() > 0 {
                    let element = self.items.remove(0);
                    Action::Push(element)
                } else {
                    Action::Complete(None)
                }
            },
            LogicEvent::Cancelled => Action::Complete(None),
            _ => Action::Stay,
        }
    }
}

/// A source stage that emits the same element for every unit of demand.
pub struct Repeat<A> {
    pub item: A,
}

impl<A: Copy> Repeat<A> {
    /// One step of the repeating source: demand is answered with a copy of
    /// the element; a downstream cancel completes the stage.
    pub fn receive(&mut self, event: LogicEvent<(), ()>) -> (r: Action<A, ()>)
        ensures
            final(self).item == old(self).item,
            match event {
                LogicEvent::Pulled => r == Action::<A, ()>::Push(old(self).item),
                LogicEvent::Cancelled => r == Action::<A, ()>::Complete(
                    Option::<StreamError>::None,
                ),
                _ => r == Action::<A, ()>::Stay,
            },
    {
        match event {
            LogicEvent::Pulled => Action::Push(self.item),
            LogicEvent::Cancelled => Action::Complete(None),
            _ => Action::Stay,
        }
    }
}

/// Convenience constructors for common sources.
pub struct Sources;

impl Sources {
    /// A source that emits the given elements in order, then completes.
    pub fn iterator<A>(items: Vec<A>) -> (r: Iterator<A>)
        ensures
            r.items@ == items@,
    {
        Iterator::new(items)
    }

    /// A source that completes immediately without emitting anything.
    pub fn empty<A>() -> (r: Iterator<A>)
        ensures
            r.items@ == Seq::<A>::empty(),
    {
        Iterator::new(Vec::new())
    }

    /// A source that emits the given element forever.
    pub fn repeat<A>(element: A) -> (r: Repeat<A>)
        ensures
            r.item == element,
    {
        Repeat { item: element }
    }

    /// A source that emits exactly one element, then completes.
    pub fn single<A>(element: A) -> (r: Iterator<A>)
        ensures
            r.items@ =~= seq![element],
    {
        let mut items: Vec<A> = Vec::new();
        items.push(element);
        Iterator::new(items)
    }
}

} // verus!
