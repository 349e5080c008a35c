use vstd::prelude::*;

verus! {

/// An actor's identity. User actors get ids from 100 up; ids below 100
/// belong to system actors.
pub type ActorId = usize;

/// Whether an actor is part of the runtime itself or belongs to the user.
/// System actors survive a drain; only an explicit stop reaches them.
pub enum ActorType {
    System,
    Root,
    Child,
}

/// A carrier for an application-level failure routed through supervision.
#[derive(Clone, Copy, PartialEq, Eq, Structural, Debug)]
pub struct FailureError {
    pub code: u64,
}

/// A lifecycle message the runtime delivers beside user messages.
pub enum Signal {
    Started,
    Stopped,
    ChildStopped(ActorId),
    Resumed,
    Failed(FailureError),
}

/// A parent's verdict on a failed child.
pub enum FailureAction {
    Resume,
    Stop,
    Escalate,
}

/// An actor's place in its life.
pub enum Lifecycle {
    Uninitialized,
    Running,
    Stopping,
    Stopped,
    Failed,
}

/// What a cell asks the runtime to do after a transition; the runtime
/// routes each to the cell it names.
pub enum CellEffect {
    /// Ask a child to begin its stop sequence.
    StopChild { child: ActorId },
    /// Deliver the one termination notification this watcher gets.
    TerminationNotice { watcher: ActorId, target: ActorId },
    /// Tell the parent that this cell has fully stopped.
    ChildStoppedSignal { parent: ActorId, child: ActorId },
    /// Hand a failure up to the parent for supervision.
    Escalate { parent: ActorId, error: FailureError },
    /// Register interest in another actor's termination.
    WatchRequest { watcher: ActorId, target: ActorId },
}

/// True when no id occurs twice.
pub open spec fn no_dup(s: Seq<ActorId>) -> bool {
    forall|i: int, j: int| 0 <= i < j < s.len() ==> s[i] != s[j]
}

/// The bookkeeping half of an actor cell: lifecycle, watchers, children.
///
/// The user's behavior object lives beside it; every transition of this
/// record is a total, verified function, whatever the behavior did.
pub struct CellState {
    pub id: ActorId,
    pub parent: ActorId,
    pub actor_type: ActorType,
    pub lifecycle: Lifecycle,
    /// Watchers that will be told when this cell stops; drained at stop.
    pub watchers: Vec<ActorId>,
    /// Watchers that have already been told; never drained, never repeated.
    pub notified: Vec<ActorId>,
    /// Children that have not yet reported back as stopped, in creation
    /// order.
    pub live_children: Vec<ActorId>,
}

impl CellState {
    /// The cell invariant: watcher and child books hold no duplicates, a
    /// watcher is never both waiting and already notified, a cell that
    /// has not started yet has empty books, and a stopped cell has
    /// drained its watcher set for good.
    pub open spec fn wf(self) -> bool {
        &&& no_dup(self.watchers@)
        &&& no_dup(self.notified@)
        &&& no_dup(self.live_children@)
        &&& (forall|i: int, j: int|
            0 <= i < self.watchers@.len() && 0 <= j < self.notified@.len()
                ==> self.watchers@[i] != self.notified@[j])
        &&& (self.lifecycle is Uninitialized ==> self.notified@.len() == 0
            && self.live_children@.len() == 0)
        &&& (self.lifecycle is Stopped ==> self.watchers@.len() == 0)
    }

    /// A fresh cell, not yet started. System cells survive a drain of
    /// the user actors; only an explicit stop reaches them.
    pub fn new(id: ActorId, parent: ActorId, actor_type: ActorType) -> (r: Self)
        ensures
            r.wf(),
            r.id == id,
            r.parent == parent,
            r.actor_type == actor_type,
            r.lifecycle is Uninitialized,
    {
        CellState {
            id,
            parent,
            actor_type,
            lifecycle: Lifecycle::Uninitialized,
            watchers: Vec::new(),
            notified: Vec::new(),
            live_children: Vec::new(),
        }
    }

    /// The `Started` signal has been delivered: the cell is running.
    pub fn mark_started(&mut self)
        requires
            old(self).wf(),
            old(self).lifecycle is Uninitialized,
        ensures
            final(self).wf(),
            *final(self) == (CellState { lifecycle: Lifecycle::Running, ..*old(self) }),
    {
        self.lifecycle = Lifecycle::Running;
    }

    /// A child was spawned under this cell.
    pub fn register_child(&mut self, child: ActorId)
        requires
            old(self).wf(),
            old(self).lifecycle is Running,
            !old(self).live_children@.contains(child),
        ensures
            final(self).wf(),
            final(self).live_children@ == old(self).live_children@.push(child),
            final(self).lifecycle == old(self).lifecycle,
            final(self).watchers@ == old(self).watchers@,
            final(self).notified@ == old(self).notified@,
            final(self).id == old(self).id && final(self).parent == old(self).parent,
    {
        self.live_children.push(child);
    }

    /// Completes the stop sequence once no child is left: the watcher set
    /// is drained into exactly one termination notice per watcher — none
    /// of whom was ever notified before — and the parent is told.
    fn finish_stop(&mut self, effects: &mut Vec<CellEffect>)
        requires
            old(self).wf(),
            old(self).live_children@.len() == 0,
            !(old(self).lifecycle is Stopped),
        ensures
            final(self).wf(),
            final(self).lifecycle is Stopped,
            final(self).watchers@.len() == 0,
            final(self).notified@ == old(self).notified@ + old(self).watchers@,
            final(self).live_children@ == old(self).live_children@,
            final(self).id == old(self).id && final(self).parent == old(self).parent,
            final(effects)@.len() == old(effects)@.len() + old(self).watchers@.len() + 1,
            forall|i: int|
                0 <= i < old(self).watchers@.len() ==> final(effects)@[old(effects)@.len() + i]
                    == (CellEffect::TerminationNotice {
                    watcher: old(self).watchers@[i],
                    target: old(self).id,
                }),
            final(effects)@.last() == (CellEffect::ChildStoppedSignal {
                parent: old(self).parent,
                child: old(self).id,
            }),
    {
        let ghost watchers_before = self.watchers@;
        let ghost notified_before = self.notified@;
        let ghost effects_before = effects@;
        self.lifecycle = Lifecycle::Stopped;
        let mut i: usize = 0;
        while i < self.watchers.len()
            invariant
                i <= self.watchers@.len(),
                self.watchers@ == watchers_before,
                no_dup(watchers_before),
                no_dup(notified_before),
                forall|a: int, b: int|
                    0 <= a < watchers_before.len() && 0 <= b < notified_before.len()
                        ==> watchers_before[a] != notified_before[b],
                self.notified@ == notified_before + watchers_before.take(i as int),
                effects@.len() == effects_before.len() + i,
                forall|k: int| 0 <= k < effects_before.len() ==> effects@[k] == effects_before[k],
                forall|k: int|
                    0 <= k < i ==> effects@[effects_before.len() + k]
                        == (CellEffect::TerminationNotice {
                        watcher: watchers_before[k],
                        target: self.id,
                    }),
                self.id == old(self).id,
                self.parent == old(self).parent,
                self.lifecycle is Stopped,
                self.live_children@ == old(self).live_children@,
            decreases self.watchers@.len() - i,
        {
            let watcher = self.watchers[i];
            self.notified.push(watcher);
            effects.push(
                CellEffect::TerminationNotice { watcher, target: self.id },
            );
            proof {
                assert(self.notified@ =~= notified_before + watchers_before.take(i + 1));
            }
            i = i + 1;
        }
        proof {
            assert(watchers_before.take(watchers_before.len() as int) =~= watchers_before);
        }
        self.watchers.clear();
        effects.push(
            CellEffect::ChildStoppedSignal { parent: self.parent, child: self.id },
        );
    }

    /// Begin (or repeat, harmlessly) the stop sequence.
    ///
    /// Children are asked to stop in reverse creation order; once none
    /// are left the stop completes at once. Stopping twice changes
    /// nothing: a watcher can never be notified again.
    pub fn request_stop(&mut self) -> (effects: Vec<CellEffect>)
        requires
            old(self).wf(),
        ensures
            final(self).wf(),
            final(self).id == old(self).id && final(self).parent == old(self).parent,
            final(self).live_children@ == old(self).live_children@,
            old(self).lifecycle is Stopped ==> *final(self) == *old(self) && effects@.len() == 0,
            old(self).lifecycle is Stopping ==> *final(self) == *old(self) && effects@.len() == 0,
            !(old(self).lifecycle is Stopped) && !(old(self).lifecycle is Stopping) ==> {
                &&& (old(self).live_children@.len() == 0 ==> final(self).lifecycle is Stopped
                    && final(self).notified@ == old(self).notified@ + old(self).watchers@
                    && effects@.len() == old(self).watchers@.len() + 1
                    && (forall|i: int|
                        0 <= i < old(self).watchers@.len() ==> effects@[i]
                            == (CellEffect::TerminationNotice {
                            watcher: old(self).watchers@[i],
                            target: old(self).id,
                        }))
                    && effects@.last() == (CellEffect::ChildStoppedSignal {
                        parent: old(self).parent,
                        child: old(self).id,
                    }))
                &&& (old(self).live_children@.len() > 0 ==> final(self).lifecycle is Stopping
                    && final(self).notified@ == old(self).notified@ && final(self).watchers@
                    == old(self).watchers@ && effects@.len() == old(
                    self,
                ).live_children@.len() && forall|i: int|
                    0 <= i < effects@.len() ==> effects@[i] == (CellEffect::StopChild {
                        child: old(self).live_children@[old(self).live_children@.len() - 1 - i],
                    }))
            },
    {
        let mut effects: Vec<CellEffect> = Vec::new();
        match self.lifecycle {
            Lifecycle::Stopped | Lifecycle::Stopping => effects,
            _ => {
                if self.live_children.len() == 0 {
                    self.finish_stop(&mut effects);
                    effects
                } else {
                    self.lifecycle = Lifecycle::Stopping;
                    let ghost children = self.live_children@;
                    let mut i: usize = self.live_children.len();
                    while i > 0
                        invariant
                            i <= children.len(),
                            self.live_children@ == children,
                            effects@.len() == children.len() - i,
                            forall|k: int|
                                0 <= k < effects@.len() ==> effects@[k] == (CellEffect::StopChild {
                                    child: children[children.len() - 1 - k],
                                }),
                        decreases i,
                    {
                        i = i - 1;
                        effects.push(CellEffect::StopChild { child: self.live_children[i] });
                    }
                    effects
                }
            },
        }
    }

    /// A child reported that it has fully stopped.
    ///
    /// The child leaves the books; if the cell was stopping and this was
    /// the last child, the stop sequence completes now.
    pub fn child_stopped(&mut self, child: ActorId) -> (effects: Vec<CellEffect>)
        requires
            old(self).wf(),
        ensures
            final(self).wf(),
            final(self).id == old(self).id && final(self).parent == old(self).parent,
            !final(self).live_children@.contains(child),
            old(self).lifecycle is Stopped ==> final(self).lifecycle is Stopped,
            old(self).live_children@.contains(child) ==> final(self).live_children@.len() == old(
                self,
            ).live_children@.len() - 1,
            old(self).live_children@.contains(child) ==> exists|j: int|
                {
                    &&& 0 <= j < old(self).live_children@.len()
                    &&& old(self).live_children@[j] == child
                    &&& final(self).live_children@ == old(self).live_children@.take(j) + old(
                        self,
                    ).live_children@.skip(j + 1)
                },
            !old(self).live_children@.contains(child) ==> final(self).live_children@ == old(
                self,
            ).live_children@,
            old(self).lifecycle is Stopping && old(self).live_children@ =~= seq![child] ==> {
                &&& final(self).lifecycle is Stopped
                &&& final(self).notified@ == old(self).notified@ + old(self).watchers@
                &&& effects@.len() == old(self).watchers@.len() + 1
                &&& (forall|i: int|
                    0 <= i < old(self).watchers@.len() ==> effects@[i]
                        == (CellEffect::TerminationNotice {
                        watcher: old(self).watchers@[i],
                        target: old(self).id,
                    }))
                &&& effects@.last() == (CellEffect::ChildStoppedSignal {
                    parent: old(self).parent,
                    child: old(self).id,
                })
            },
            old(self).lifecycle is Stopping && old(self).live_children@.contains(child) && old(
                self,
            ).live_children@.len() > 1 ==> final(self).lifecycle is Stopping && effects@.len()
                == 0 && final(self).watchers@ == old(self).watchers@ && final(self).notified@
                == old(self).notified@,
    {
        let mut kept: Vec<ActorId> = Vec::new();
        let ghost children = self.live_children@;
        let mut i: usize = 0;
        while i < self.live_children.len()
            invariant
                i <= children.len(),
                self.live_children@ == children,
                no_dup(children),
                no_dup(kept@),
                kept@.len() == i - (if children.take(i as int).contains(child) {
                    1int
                } else {
                    0int
                }),
                forall|k: int| 0 <= k < kept@.len() ==> kept@[k] != child,
                !children.take(i as int).contains(child) ==> kept@ == children.take(i as int),
                children.take(i as int).contains(child) ==> exists|j: int|
                    {
                        &&& 0 <= j < i
                        &&& children[j] == child
                        &&& kept@ == children.take(j) + children.subrange(j + 1, i as int)
                    },
                forall|k: int|
                    0 <= k < kept@.len() ==> exists|m: int|
                        0 <= m < i && children[m] == #[trigger] kept@[k],
                forall|m: int|
                    0 <= m < i && children[m] != child ==> kept@.contains(#[trigger] children[m]),
            decreases children.len() - i,
        {
            let x = self.live_children[i];
            let ghost kept_before = kept@;
            proof {
                assert(children.take(i + 1).drop_last() =~= children.take(i as int));
                assert(children.take(i + 1).last() == children[i as int]);
                if children.take(i as int).contains(child) {
                    let m = choose|m: int|
                        0 <= m < i && #[trigger] children.take(i as int)[m] == child;
                    assert(children.take(i + 1)[m] == child);
                    assert(children.take(i + 1).contains(child));
                    if children[i as int] == child {
                        assert(children[m] == children[i as int]);
                        assert(false);
                    }
                } else if children[i as int] == child {
                    assert(children.take(i + 1)[i as int] == child);
                    assert(children.take(i + 1).contains(child));
                } else {
                    if children.take(i + 1).contains(child) {
                        let m = choose|m: int|
                            0 <= m < i + 1 && #[trigger] children.take(i + 1)[m] == child;
                        assert(children.take(i as int)[m] == child);
                        assert(false);
                    }
                }
            }
            if x != child {
                proof {
                    assert(forall|k: int|
                        0 <= k < kept@.len() ==> #[trigger] kept@[k] != children[i as int]);
                }
                kept.push(x);
                proof {
                    if children.take(i as int).contains(child) {
                        let j = choose|j: int|
                            {
                                &&& 0 <= j < i
                                &&& children[j] == child
                                &&& kept_before == children.take(j) + children.subrange(
                                    j + 1,
                                    i as int,
                                )
                            };
                        assert(kept@ =~= children.take(j) + children.subrange(j + 1, i + 1));
                    }
                    assert forall|m: int|
                        0 <= m < i + 1 && children[m] != child implies kept@.contains(
                        #[trigger] children[m],
                    ) by {
                        if m < i {
                            assert(kept_before.contains(children[m]));
                            let k = choose|k: int|
                                0 <= k < kept_before.len() && kept_before[k] == children[m];
                            assert(kept@[k] == children[m]);
                        } else {
                            assert(kept@[kept@.len() - 1] == children[m]);
                        }
                    }
                }
            } else {
                proof {
                    assert(kept@ =~= children.take(i as int) + children.subrange(
                        i + 1,
                        i + 1,
                    ));
                    assert forall|m: int|
                        0 <= m < i + 1 && children[m] != child implies kept@.contains(
                        #[trigger] children[m],
                    ) by {
                        assert(m < i);
                        assert(kept_before.contains(children[m]));
                    }
                }
            }
            i = i + 1;
        }
        proof {
            assert(children.take(children.len() as int) =~= children);
            if old(self).lifecycle is Stopping && children =~= seq![child] {
                assert(children[0] == child);
                assert(children.contains(child));
            }
        }
        self.live_children = kept;
        let mut effects: Vec<CellEffect> = Vec::new();
        let stopping = match self.lifecycle {
            Lifecycle::Stopping => true,
            _ => false,
        };
        if stopping && self.live_children.len() == 0 {
            self.finish_stop(&mut effects);
        }
        effects
    }

    /// Someone asked to watch this cell.
    ///
    /// A live target records the watcher (once); a target that already
    /// stopped answers immediately — but never a second time to the same
    /// watcher, so each watcher gets at most one notice, ever.
    pub fn watch(&mut self, watcher: ActorId) -> (effects: Vec<CellEffect>)
        requires
            old(self).wf(),
        ensures
            final(self).wf(),
            final(self).id == old(self).id && final(self).parent == old(self).parent,
            final(self).lifecycle == old(self).lifecycle,
            final(self).live_children@ == old(self).live_children@,
            old(self).notified@.contains(watcher) ==> *final(self) == *old(self) && effects@.len()
                == 0,
            old(self).lifecycle is Stopped && !old(self).notified@.contains(watcher) ==> {
                &&& final(self).notified@ == old(self).notified@.push(watcher)
                &&& effects@ =~= seq![
                    (CellEffect::TerminationNotice { watcher, target: old(self).id }),
                ]
            },
            !(old(self).lifecycle is Stopped) ==> {
                &&& effects@.len() == 0
                &&& final(self).notified@ == old(self).notified@
                &&& (old(self).watchers@.contains(watcher) ==> final(self).watchers@ == old(
                    self,
                ).watchers@)
                &&& (!old(self).watchers@.contains(watcher) && !old(self).notified@.contains(
                    watcher,
                ) ==> final(self).watchers@ == old(self).watchers@.push(watcher))
            },
    {
        let mut effects: Vec<CellEffect> = Vec::new();
        let stopped = match self.lifecycle {
            Lifecycle::Stopped => true,
            _ => false,
        };
        if stopped {
            if !contains_id(&self.notified, watcher) {
                self.notified.push(watcher);
                effects.push(
                    CellEffect::TerminationNotice { watcher, target: self.id },
                );
            }
        } else {
            if !contains_id(&self.watchers, watcher) && !contains_id(&self.notified, watcher) {
                self.watchers.push(watcher);
            }
        }
        effects
    }

    /// The behavior failed (a panic caught at the cell boundary, or an
    /// explicit failure): the cell leaves `Running` for `Failed` and
    /// supervision will decide what happens next.
    pub fn mark_failed(&mut self)
        requires
            old(self).wf(),
            old(self).lifecycle is Running,
        ensures
            final(self).wf(),
            *final(self) == (CellState { lifecycle: Lifecycle::Failed, ..*old(self) }),
    {
        self.lifecycle = Lifecycle::Failed;
    }

    /// Apply the parent's supervision verdict to a failed cell.
    ///
    /// `Resume` clears the failure; `Stop` runs the stop sequence;
    /// `Escalate` hands the failure to the parent and leaves the cell
    /// failed until the parent's own verdict comes back down.
    pub fn apply_supervision(&mut self, action: FailureAction, error: FailureError) -> (effects:
        Vec<CellEffect>)
        requires
            old(self).wf(),
            old(self).lifecycle is Failed,
        ensures
            final(self).wf(),
            final(self).id == old(self).id && final(self).parent == old(self).parent,
            action is Resume ==> *final(self) == (CellState {
                lifecycle: Lifecycle::Running,
                ..*old(self)
            }) && effects@.len() == 0,
            action is Escalate ==> *final(self) == *old(self) && effects@ =~= seq![
                (CellEffect::Escalate { parent: old(self).parent, error }),
            ],
            action is Stop && old(self).live_children@.len() == 0 ==> final(self).lifecycle
                is Stopped,
            action is Stop && old(self).live_children@.len() > 0 ==> final(self).lifecycle
                is Stopping,
    {
        match action {
            FailureAction::Resume => {
                self.lifecycle = Lifecycle::Running;
                Vec::new()
            },
            FailureAction::Escalate => {
                let mut effects: Vec<CellEffect> = Vec::new();
                effects.push(CellEffect::Escalate { parent: self.parent, error });
                effects
            },
            FailureAction::Stop => {
                let effects = self.request_stop();
                effects
            },
        }
    }
}

/// The stop sequence of one parent and its direct children, run to
/// quiescence. The parent asks the children to stop in reverse creation
/// order; every child completes its own stop — so children always
/// terminate before their parent — and only when the last child has
/// reported back does the parent stop, notify its watchers exactly once
/// each, and announce itself to its own parent: that announcement is the
/// very last effect of the whole sequence.
pub fn run_stop_sequence(parent: &mut CellState, children: Vec<CellState>) -> (r: (
    Vec<CellState>,
    Vec<CellEffect>,
))
    requires
        old(parent).wf(),
        old(parent).lifecycle is Running,
        children@.len() == old(parent).live_children@.len(),
        forall|i: int|
            0 <= i < children@.len() ==> {
                &&& (#[trigger] children@[i]).wf()
                &&& children@[i].id == old(parent).live_children@[i]
                &&& children@[i].lifecycle is Running
                &&& children@[i].live_children@.len() == 0
            },
    ensures
        final(parent).wf(),
        final(parent).lifecycle is Stopped,
        final(parent).live_children@.len() == 0,
        final(parent).notified@ == old(parent).notified@ + old(parent).watchers@,
        r.0@.len() == children@.len(),
        forall|i: int|
            0 <= i < r.0@.len() ==> (#[trigger] r.0@[i]).lifecycle is Stopped && r.0@[i].id
                == children@[children@.len() - 1 - i].id,
        r.1@.len() > 0,
        r.1@.last() == (CellEffect::ChildStoppedSignal {
            parent: old(parent).parent,
            child: old(parent).id,
        }),
{
    let ghost n = children@.len();
    let ghost parent0 = *parent;
    proof {
        assert(children@.len() == parent0.live_children@.len());
    }
    let mut effects: Vec<CellEffect> = Vec::new();
    let mut stop_requests = parent.request_stop();
    effects.append(&mut stop_requests);
    let mut remaining = children;
    let mut stopped: Vec<CellState> = Vec::new();
    proof {
        assert(remaining@ =~= children@.take(remaining@.len() as int));
        assert(parent.live_children@ =~= parent0.live_children@.take(remaining@.len() as int));
    }
    while remaining.len() > 0
        invariant
            parent.wf(),
            parent.id == parent0.id,
            parent.parent == parent0.parent,
            remaining@ == children@.take(remaining@.len() as int),
            remaining@.len() <= n,
            n == children@.len(),
            parent0.live_children@.len() == n,
            forall|i: int|
                0 <= i < children@.len() ==> {
                    &&& (#[trigger] children@[i]).wf()
                    &&& children@[i].id == parent0.live_children@[i]
                    &&& children@[i].lifecycle is Running
                    &&& children@[i].live_children@.len() == 0
                },
            remaining@.len() > 0 ==> {
                &&& parent.lifecycle is Stopping
                &&& parent.watchers@ == parent0.watchers@
                &&& parent.notified@ == parent0.notified@
                &&& parent.live_children@ == parent0.live_children@.take(
                    remaining@.len() as int,
                )
            },
            remaining@.len() == 0 ==> {
                &&& parent.lifecycle is Stopped
                &&& parent.live_children@.len() == 0
                &&& parent.notified@ == parent0.notified@ + parent0.watchers@
                &&& effects@.len() > 0
                &&& effects@.last() == (CellEffect::ChildStoppedSignal {
                    parent: parent0.parent,
                    child: parent0.id,
                })
            },
            stopped@.len() == n - remaining@.len(),
            forall|i: int|
                0 <= i < stopped@.len() ==> (#[trigger] stopped@[i]).lifecycle is Stopped
                    && stopped@[i].id == children@[n - 1 - i].id,
        decreases remaining@.len(),
    {
        let ghost m = remaining@.len() as int;
        let mut child = match remaining.pop() {
            Some(child) => child,
            None => {
                proof {
                    assert(false);
                }
                return (stopped, effects);
            },
        };
        proof {
            assert(child == children@.take(m)[m - 1]);
            assert(child == children@[m - 1]);
            assert(remaining@ =~= children@.take(m - 1));
            assert(child.id == parent0.live_children@[m - 1]);
            assert(parent.live_children@.len() == m);
            assert(parent.live_children@[m - 1] == parent0.live_children@.take(m)[m - 1]);
            assert(parent.live_children@.last() == child.id);
        }
        let mut child_effects = child.request_stop();
        effects.append(&mut child_effects);
        let ghost live_before = parent.live_children@;
        proof {
            if m == 1 {
                assert(live_before =~= seq![child.id]);
            }
        }
        let mut parent_effects = parent.child_stopped(child.id);
        effects.append(&mut parent_effects);
        proof {
            if m > 1 {
                assert(live_before.contains(child.id)) by {
                    assert(live_before.last() == child.id);
                }
                let j = choose|j: int|
                    {
                        &&& 0 <= j < live_before.len()
                        &&& live_before[j] == child.id
                        &&& parent.live_children@ == live_before.take(j) + live_before.skip(j + 1)
                    };
                assert(j == live_before.len() - 1) by {
                    if j < live_before.len() - 1 {
                        assert(live_before[j] == live_before[live_before.len() - 1]);
                    }
                }
                assert(parent.live_children@ =~= parent0.live_children@.take(m - 1));
            }
        }
        stopped.push(child);
    }
    (stopped, effects)
}

/// Whether `v` holds `id`.
pub fn contains_id(v: &Vec<ActorId>, id: ActorId) -> (r: bool)
    ensures
        r == v@.contains(id),
{
    let mut i: usize = 0;
    while i < v.len()
        invariant
            i <= v@.len(),
            forall|k: int| 0 <= k < i ==> v@[k] != id,
        decreases v@.len() - i,
    {
        if v[i] == id {
            return true;
        }
        i = i + 1;
    }
    false
}

/// Watch exactly-once: a well-formed cell's record of sent termination
/// notices holds each watcher at most once, and a watcher recorded there
/// is never waiting for a second notice.
pub proof fn lemma_watch_exactly_once(cell: CellState)
    requires
        cell.wf(),
    ensures
        no_dup(cell.notified@),
        forall|i: int, j: int|
            0 <= i < cell.watchers@.len() && 0 <= j < cell.notified@.len() ==> cell.watchers@[i]
                != cell.notified@[j],
{
}

} // verus!
