use vstd::prelude::*;

use crate::stream::proto::{Action, LogicEvent, StreamError};
use core::marker::PhantomData;

verus! {

/// A `Flow` is a stage with both an input and an output; the concrete
/// flows below each expose their state machine as a `receive` function
/// from one event to one action.
pub struct Flow;

/// A flow that keeps only the elements its predicate accepts.
pub struct Filter<A, F> {
    pub filter: F,
    pub phantom: PhantomData<A>,
}

impl<A, F: Fn(&A) -> bool> Filter<A, F> {
    pub fn new(filter: F) -> (r: Self)
        ensures
            r.filter == filter,
    {
        Filter { filter, phantom: PhantomData }
    }

    /// One step of the filter's state machine.
    ///
    /// An accepted element is pushed on downstream; a rejected one is
    /// replaced by a fresh pull upstream, so demand is never lost.
    pub fn receive(&mut self, event: LogicEvent<A, ()>) -> (r: Action<A, ()>)
        requires
            forall|x: &A| #[trigger] call_requires(old(self).filter, (x,)),
        ensures
            final(self).filter == old(self).filter,
            match event {
                LogicEvent::Pushed(a) => exists|keep: bool|
                    {
                        &&& #[trigger] call_ensures(old(self).filter, (&a,), keep)
                        &&& r == (if keep {
                            Action::<A, ()>::Push(a)
                        } else {
                            Action::<A, ()>::Pull
                        })
                    },
                LogicEvent::Pulled => r == Action::<A, ()>::Pull,
                LogicEvent::Cancelled => r == Action::<A, ()>::Cancel,
                LogicEvent::Stopped => r == Action::<A, ()>::Complete(
                    Option::<StreamError>::None,
                ),
                _ => r == Action::<A, ()>::Stay,
            },
    {
        match event {
            LogicEvent::Pushed(element) => {
                if (self.filter)(&element) {
                    Action::Push(element)
                } else {
                    Action::Pull
                }
            },
            LogicEvent::Pulled => Action::Pull,
            LogicEvent::Cancelled => Action::Cancel,
            LogicEvent::Stopped => Action::Complete(None),
            _ => Action::Stay,
        }
    }
}

/// A flow that passes elements through while its predicate holds, and
/// completes the stream at the first element that fails it.
pub struct TakeWhile<A, F> {
    pub while_fn: F,
    pub phantom: PhantomData<A>,
}

impl<A, F: Fn(&A) -> bool> TakeWhile<A, F> {
    pub fn new(while_fn: F) -> (r: Self)
        ensures
            r.while_fn == while_fn,
    {
        TakeWhile { while_fn, phantom: PhantomData }
    }

    /// One step of the take-while state machine.
    ///
    /// The first rejected element completes the stream; the driver that
    /// sees the completion cancels upstream, so the rejected element and
    /// everything after it never travel downstream.
    pub fn receive(&mut self, event: LogicEvent<A, ()>) -> (r: Action<A, ()>)
        requires
            forall|x: &A| #[trigger] call_requires(old(self).while_fn, (x,)),
        ensures
            final(self).while_fn == old(self).while_fn,
            match event {
                LogicEvent::Pushed(a) => exists|keep: bool|
                    {
                        &&& #[trigger] call_ensures(old(self).while_fn, (&a,), keep)
                        &&& r == (if keep {
                            Action::<A, ()>::Push(a)
                        } else {
                            Action::<A, ()>::Complete(Option::<StreamError>::None)
                        })
                    },
                LogicEvent::Pulled => r == Action::<A, ()>::Pull,
                LogicEvent::Stopped | LogicEvent::Cancelled => r == Action::<A, ()>::Complete(
                    Option::<StreamError>::None,
                ),
                _ => r == Action::<A, ()>::Stay,
            },
    {
        match event {
            LogicEvent::Pulled => Action::Pull,
            LogicEvent::Pushed(element) => {
                if (self.while_fn)(&element) {
                    Action::Push(element)
                } else {
                    Action::Complete(None)
                }
            },
            LogicEvent::Stopped | LogicEvent::Cancelled => Action::Complete(None),
            _ => Action::Stay,
        }
    }
}

/// A flow that applies a function to every element that passes through.
pub struct Transform<A, B, F> {
    pub map_fn: F,
    pub phantom: PhantomData<(A, B)>,
}

impl<A, B, F: Fn(A) -> B> Transform<A, B, F> {
    pub fn new(map_fn: F) -> (r: Self)
        ensures
            r.map_fn == map_fn,
    {
        Transform { map_fn, phantom: PhantomData }
    }

    /// One step of the mapping state machine: every pushed element is
    /// transformed and pushed on; everything else passes through.
    pub fn receive(&mut self, event: LogicEvent<A, ()>) -> (r: Action<B, ()>)
        requires
            forall|x: A| #[trigger] call_requires(old(self).map_fn, (x,)),
        ensures
            final(self).map_fn == old(self).map_fn,
            match event {
                LogicEvent::Pushed(a) => exists|b: B|
                    {
                        &&& #[trigger] call_ensures(old(self).map_fn, (a,), b)
                        &&& r == Action::<B, ()>::Push(b)
                    },
                LogicEvent::Pulled => r == Action::<B, ()>::Pull,
                LogicEvent::Cancelled => r == Action::<B, ()>::Cancel,
                LogicEvent::Stopped => r == Action::<B, ()>::Complete(
                    Option::<StreamError>::None,
                ),
                _ => r == Action::<B, ()>::Stay,
            },
    {
        match event {
            LogicEvent::Pushed(element) => Action::Push((self.map_fn)(element)),
            LogicEvent::Pulled => Action::Pull,
            LogicEvent::Cancelled => Action::Cancel,
            LogicEvent::Stopped => Action::Complete(None),
            _ => Action::Stay,
        }
    }
}

} // verus!
