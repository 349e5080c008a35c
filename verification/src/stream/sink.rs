use vstd::prelude::*;

use crate::stream::proto::{Action, LogicEvent, StreamError};
use core::marker::PhantomData;

verus! {

/// A sink stage that collects every element it is pushed, in arrival order.
pub struct ToVec<A> {
    pub collected: Vec<A>,
}

impl<A> ToVec<A> {
    /// One step of the collecting sink: attachment raises the first unit
    /// of demand, every element is stored and answered with fresh demand,
    /// and completion is absorbed.
    pub fn receive(&mut self, event: LogicEvent<A, ()>) -> (r: Action<(), ()>)
        ensures
            match event {
                LogicEvent::Started => {
                    &&& final(self).collected@ == old(self).collected@
                    &&& r == Action::<(), ()>::Pull
                },
                LogicEvent::Pushed(a) => {
                    &&& final(self).collected@ == old(self).collected@.push(a)
                    &&& r == Action::<(), ()>::Pull
                },
                _ => {
                    &&& final(self).collected@ == old(self).collected@
                    &&& r == Action::<(), ()>::Stay
                },
            },
    {
        match event {
            LogicEvent::Started => Action::Pull,
            LogicEvent::Pushed(element) => {
                self.collected.push(element);
                Action::Pull
            },
            _ => Action::Stay,
        }
    }
}

/// A sink stage that keeps the first element it is pushed and then
/// cancels upstream.
pub struct First<A> {
    pub got: Option<A>,
}

impl<A> First<A> {
    /// One step of the first-element sink: the first pushed element is
    /// retained and upstream is cancelled; later events change nothing.
    pub fn receive(&mut self, event: LogicEvent<A, ()>) -> (r: Action<(), ()>)
        ensures
            match event {
                LogicEvent::Started => {
                    &&& final(self).got == old(self).got
                    &&& r == (if old(self).got is None {
                        Action::<(), ()>::Pull
                    } else {
                        Action::<(), ()>::Cancel
                    })
                },
                LogicEvent::Pushed(a) => {
                    &&& final(self).got == (if old(self).got is None {
                        Some(a)
                    } else {
                        old(self).got
                    })
                    &&& r == Action::<(), ()>::Cancel
                },
                _ => {
                    &&& final(self).got == old(self).got
                    &&& r == Action::<(), ()>::Stay
                },
            },
    {
        match event {
            LogicEvent::Started => {
                if self.got.is_none() {
                    Action::Pull
                } else {
                    Action::Cancel
                }
            },
            LogicEvent::Pushed(element) => {
                if self.got.is_none() {
                    self.got = Some(element);
                }
                Action::Cancel
            },
            _ => Action::Stay,
        }
    }
}

/// A sink stage that hands every element to a callback and discards it.
pub struct ForEach<A, F> {
    pub each_fn: F,
    pub phantom: PhantomData<A>,
}

impl<A, F: Fn(A) -> ()> ForEach<A, F> {
    /// One step of the per-element sink: every pushed element is handed
    /// to the callback and answered with fresh demand.
    pub fn receive(&mut self, event: LogicEvent<A, ()>) -> (r: Action<(), ()>)
        requires
            forall|x: A| #[trigger] call_requires(old(self).each_fn, (x,)),
        ensures
            final(self).each_fn == old(self).each_fn,
            match event {
                LogicEvent::Started | LogicEvent::Pushed(_) => r == Action::<(), ()>::Pull,
                _ => r == Action::<(), ()>::Stay,
            },
    {
        match event {
            LogicEvent::Started => Action::Pull,
            LogicEvent::Pushed(element) => {
                (self.each_fn)(element);
                Action::Pull
            },
            _ => Action::Stay,
        }
    }
}

/// Convenience constructors for common sinks.
pub struct Sink;

impl Sink {
    /// A sink that collects everything pushed to it into a vector.
    pub fn to_vec<A>() -> (r: ToVec<A>)
        ensures
            r.collected@ == Seq::<A>::empty(),
    {
        ToVec { collected: Vec::new() }
    }

    /// A sink that keeps only the first element and cancels the rest.
    pub fn first<A>() -> (r: First<A>)
        ensures
            r.got is None,
    {
        First { got: None }
    }

    /// A sink that runs a callback for every element.
    pub fn for_each<A, F: Fn(A) -> ()>(each_fn: F) -> (r: ForEach<A, F>)
        ensures
            r.each_fn == each_fn,
    {
        ForEach { each_fn, phantom: PhantomData }
    }
}

} // verus!
