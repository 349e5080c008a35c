use vstd::prelude::*;

use crate::actor::cell::{
    ActorId, ActorType, CellEffect, CellState, FailureAction, FailureError, Lifecycle, Signal,
};
use core::marker::PhantomData;

verus! {

/// What an actor's behavior may ask of the runtime while handling one
/// message or signal. The behavior records requests here; the cell turns
/// them into verified transitions afterwards.
pub struct ActorContext {
    pub stop_requested: bool,
    pub fail_requested: Option<FailureError>,
    pub watch_targets: Vec<ActorId>,
}

impl ActorContext {
    /// A fresh context with nothing requested.
    pub fn new() -> (r: Self)
        ensures
            !r.stop_requested,
            r.fail_requested is None,
            r.watch_targets@ == Seq::<ActorId>::empty(),
    {
        ActorContext { stop_requested: false, fail_requested: None, watch_targets: Vec::new() }
    }

    /// Ask the runtime to stop this actor. Idempotent.
    pub fn stop(&mut self)
        ensures
            *final(self) == (ActorContext { stop_requested: true, ..*old(self) }),
    {
        self.stop_requested = true;
    }

    /// Report a failure; the first one wins.
    pub fn fail(&mut self, error: FailureError)
        ensures
            old(self).fail_requested is None ==> *final(self) == (ActorContext {
                fail_requested: Some(error),
                ..*old(self)
            }),
            old(self).fail_requested is Some ==> *final(self) == *old(self),
    {
        if self.fail_requested.is_none() {
            self.fail_requested = Some(error);
        }
    }

    /// Ask to be told when `target` stops.
    pub fn watch(&mut self, target: ActorId)
        ensures
            final(self).stop_requested == old(self).stop_requested,
            final(self).fail_requested == old(self).fail_requested,
            final(self).watch_targets@ == old(self).watch_targets@.push(target),
    {
        self.watch_targets.push(target);
    }
}

/// The capability set an actor implementation provides. The runtime calls
/// these; nothing is assumed about what they do beyond the requests they
/// record in the context.
pub trait Actor<M>: Sized {
    /// Handle one user message.
    fn receive(&mut self, msg: M, ctx: &mut ActorContext);

    /// Handle one lifecycle signal.
    fn receive_signal(&mut self, signal: Signal, ctx: &mut ActorContext);

    /// Decide what happens to a failed child.
    fn supervise(&mut self, error: &FailureError) -> FailureAction;
}

/// A cell: one actor's behavior object beside its verified bookkeeping.
///
/// Every entry point first lets the behavior run (its effect on its own
/// state is its business), then applies the recorded requests through
/// the `CellState` transitions — so the lifecycle guarantees hold
/// whatever the behavior did.
pub struct ActorCell<M, A> {
    pub actor: A,
    pub state: CellState,
    pub phantom: PhantomData<M>,
}

impl<M, A: Actor<M>> ActorCell<M, A> {
    /// A fresh cell around a behavior object.
    pub fn new(id: ActorId, parent: ActorId, actor_type: ActorType, actor: A) -> (r: Self)
        ensures
            r.actor == actor,
            r.state.wf(),
            r.state.id == id,
            r.state.parent == parent,
            r.state.actor_type == actor_type,
            r.state.lifecycle is Uninitialized,
    {
        ActorCell { actor, state: CellState::new(id, parent, actor_type), phantom: PhantomData }
    }

    /// Turn the requests a behavior recorded into cell transitions:
    /// watches become watch requests to their targets; a failure beats a
    /// stop and goes up for supervision; a stop runs the stop sequence.
    fn apply_context(&mut self, ctx: &ActorContext) -> (effects: Vec<CellEffect>)
        requires
            old(self).state.wf(),
            old(self).state.lifecycle is Running,
        ensures
            final(self).state.wf(),
            final(self).state.id == old(self).state.id,
            final(self).state.parent == old(self).state.parent,
            final(self).actor == old(self).actor,
            final(self).state.live_children@ == old(self).state.live_children@,
            ctx.fail_requested is Some ==> final(self).state.lifecycle is Failed,
            ctx.fail_requested is None && ctx.stop_requested && old(
                self,
            ).state.live_children@.len() == 0 ==> final(self).state.lifecycle is Stopped,
            ctx.fail_requested is None && !ctx.stop_requested ==> final(self).state == old(
                self,
            ).state,
            ctx.fail_requested is None && ctx.stop_requested && old(
                self,
            ).state.live_children@.len() == 0 ==> effects@.contains(
                (CellEffect::ChildStoppedSignal {
                    parent: old(self).state.parent,
                    child: old(self).state.id,
                }),
            ),
    {
        let mut effects: Vec<CellEffect> = Vec::new();
        let mut i: usize = 0;
        while i < ctx.watch_targets.len()
            invariant
                *self == *old(self),
            decreases ctx.watch_targets@.len() - i,
        {
            effects.push(
                CellEffect::WatchRequest {
                    watcher: self.state.id,
                    target: ctx.watch_targets[i],
                },
            );
            i = i + 1;
        }
        match ctx.fail_requested {
            Some(error) => {
                self.state.mark_failed();
                effects.push(CellEffect::Escalate { parent: self.state.parent, error });
            },
            None => {
                if ctx.stop_requested {
                    let ghost watch_effects = effects@;
                    let mut stop_effects = self.state.request_stop();
                    let ghost stops = stop_effects@;
                    effects.append(&mut stop_effects);
                    proof {
                        if stops.len() > 0 {
                            assert(effects@[watch_effects.len() + stops.len() - 1]
                                == stops.last());
                        }
                    }
                }
            },
        }
        effects
    }

    /// First run after spawn: the behavior sees `Started` before any user
    /// message, and the cell starts running — unless the behavior asked
    /// to stop or fail right away.
    pub fn initialize(&mut self) -> (effects: Vec<CellEffect>)
        requires
            old(self).state.wf(),
            old(self).state.lifecycle is Uninitialized,
        ensures
            final(self).state.wf(),
            final(self).state.id == old(self).state.id,
            final(self).state.parent == old(self).state.parent,
            !(final(self).state.lifecycle is Uninitialized),
            final(self).state.lifecycle is Stopped ==> effects@.contains(
                (CellEffect::ChildStoppedSignal {
                    parent: old(self).state.parent,
                    child: old(self).state.id,
                }),
            ),
    {
        let mut ctx = ActorContext::new();
        self.actor.receive_signal(Signal::Started, &mut ctx);
        self.state.mark_started();
        self.apply_context(&ctx)
    }

    /// Deliver one user message.
    ///
    /// Only a running cell lets the message reach the behavior; in every
    /// other state — in particular once `Stopped` went out to the
    /// watchers — the message is dropped and nothing at all changes.
    pub fn deliver(&mut self, msg: M) -> (r: (bool, Vec<CellEffect>))
        requires
            old(self).state.wf(),
        ensures
            final(self).state.wf(),
            final(self).state.id == old(self).state.id,
            final(self).state.parent == old(self).state.parent,
            r.0 == (old(self).state.lifecycle is Running),
            !r.0 ==> *final(self) == *old(self) && r.1@.len() == 0,
    {
        let running = match self.state.lifecycle {
            Lifecycle::Running => true,
            _ => false,
        };
        if !running {
            return (false, Vec::new());
        }
        let mut ctx = ActorContext::new();
        self.actor.receive(msg, &mut ctx);
        let effects = self.apply_context(&ctx);
        (true, effects)
    }

    /// A child of this cell reported that it has stopped: update the
    /// books (possibly completing this cell's own stop), then let a
    /// still-running behavior see the `ChildStopped` signal.
    pub fn deliver_child_stopped(&mut self, child: ActorId) -> (effects: Vec<CellEffect>)
        requires
            old(self).state.wf(),
        ensures
            final(self).state.wf(),
            final(self).state.id == old(self).state.id,
            final(self).state.parent == old(self).state.parent,
            !final(self).state.live_children@.contains(child),
            old(self).state.lifecycle is Stopped ==> final(self).state.lifecycle is Stopped,
    {
        let mut effects = self.state.child_stopped(child);
        let running = match self.state.lifecycle {
            Lifecycle::Running => true,
            _ => false,
        };
        if running {
            let mut ctx = ActorContext::new();
            self.actor.receive_signal(Signal::ChildStopped(child), &mut ctx);
            let mut more = self.apply_context(&ctx);
            effects.append(&mut more);
        }
        effects
    }

    /// The parent's side of supervision: its behavior is asked for a
    /// verdict on a failed child.
    pub fn supervise_child(&mut self, error: &FailureError) -> (action: FailureAction)
        ensures
            final(self).state == old(self).state,
    {
        self.actor.supervise(error)
    }

    /// The failed cell applies the verdict that came back down.
    pub fn apply_supervision(&mut self, action: FailureAction, error: FailureError) -> (effects:
        Vec<CellEffect>)
        requires
            old(self).state.wf(),
            old(self).state.lifecycle is Failed,
        ensures
            final(self).state.wf(),
            final(self).state.id == old(self).state.id,
            final(self).state.parent == old(self).state.parent,
            !(final(self).state.lifecycle is Uninitialized),
    {
        let resumed = match action {
            FailureAction::Resume => true,
            _ => false,
        };
        let effects = self.state.apply_supervision(action, error);
        if resumed {
            let mut ctx = ActorContext::new();
            self.actor.receive_signal(Signal::Resumed, &mut ctx);
            let mut more = self.apply_context(&ctx);
            let mut all = effects;
            all.append(&mut more);
            return all;
        }
        effects
    }
}

} // verus!
