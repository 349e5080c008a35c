use vstd::prelude::*;

use crate::actor::cell::{no_dup, ActorId};

verus! {

/// The system actor that keeps the book of live user actors and
/// coordinates a drain or a full stop of the system.
pub struct ActorWatcher {
    /// Ids of registered, not yet stopped user actors, in registration
    /// order and without duplicates.
    pub live: Vec<ActorId>,
    /// A drain or stop has been requested; completion is announced when
    /// the book empties.
    pub draining: bool,
    /// The requested shutdown also takes the system actors with it.
    pub stopping: bool,
}

impl ActorWatcher {
    pub open spec fn wf(self) -> bool {
        no_dup(self.live@)
    }

    /// A fresh watcher with an empty book.
    pub fn new() -> (r: Self)
        ensures
            r.wf(),
            r.live@ == Seq::<ActorId>::empty(),
            !r.draining,
            !r.stopping,
    {
        ActorWatcher { live: Vec::new(), draining: false, stopping: false }
    }

    /// A user actor was spawned and registers itself.
    pub fn register(&mut self, id: ActorId)
        requires
            old(self).wf(),
            !old(self).live@.contains(id),
        ensures
            final(self).wf(),
            final(self).live@ == old(self).live@.push(id),
            final(self).draining == old(self).draining,
            final(self).stopping == old(self).stopping,
    {
        self.live.push(id);
    }

    /// An actor has stopped and leaves the book. The second result is
    /// true exactly when this was the last live actor of a requested
    /// shutdown: the moment to announce completion.
    pub fn deregister(&mut self, id: ActorId) -> (done: bool)
        requires
            old(self).wf(),
        ensures
            final(self).wf(),
            !final(self).live@.contains(id),
            forall|x: ActorId|
                x != id ==> (final(self).live@.contains(x) == old(self).live@.contains(x)),
            final(self).draining == old(self).draining,
            final(self).stopping == old(self).stopping,
            done == (final(self).draining && final(self).live@.len() == 0),
    {
        let mut kept: Vec<ActorId> = Vec::new();
        let ghost entries = self.live@;
        let mut i: usize = 0;
        while i < self.live.len()
            invariant
                i <= entries.len(),
                self.live@ == entries,
                no_dup(entries),
                no_dup(kept@),
                kept@.len() <= i,
                forall|k: int| 0 <= k < kept@.len() ==> kept@[k] != id,
                forall|k: int|
                    0 <= k < kept@.len() ==> exists|m: int|
                        0 <= m < i && entries[m] == #[trigger] kept@[k],
                forall|m: int|
                    0 <= m < i && entries[m] != id ==> kept@.contains(#[trigger] entries[m]),
            decreases entries.len() - i,
        {
            let x = self.live[i];
            let ghost kept_before = kept@;
            if x != id {
                proof {
                    assert(forall|k: int|
                        0 <= k < kept@.len() ==> #[trigger] kept@[k] != entries[i as int]);
                }
                kept.push(x);
                proof {
                    assert forall|m: int|
                        0 <= m < i + 1 && entries[m] != id implies kept@.contains(
                        #[trigger] entries[m],
                    ) by {
                        if m < i {
                            assert(kept_before.contains(entries[m]));
                            let k = choose|k: int|
                                0 <= k < kept_before.len() && kept_before[k] == entries[m];
                            assert(kept@[k] == entries[m]);
                        } else {
                            assert(kept@[kept@.len() - 1] == entries[m]);
                        }
                    }
                }
            } else {
                proof {
                    assert forall|m: int|
                        0 <= m < i + 1 && entries[m] != id implies kept@.contains(
                        #[trigger] entries[m],
                    ) by {
                        assert(m < i);
                        assert(kept_before.contains(entries[m]));
                    }
                }
            }
            i = i + 1;
        }
        self.live = kept;
        self.draining && self.live.len() == 0
    }

    /// Drain the system: every registered user actor is asked to stop.
    /// Returns the ids to broadcast to, and whether the system is already
    /// quiescent.
    pub fn drain_system(&mut self) -> (r: (Vec<ActorId>, bool))
        requires
            old(self).wf(),
        ensures
            final(self).wf(),
            final(self).live@ == old(self).live@,
            final(self).draining,
            final(self).stopping == old(self).stopping,
            r.0@ == old(self).live@,
            r.1 == (old(self).live@.len() == 0),
    {
        self.draining = true;
        let mut targets: Vec<ActorId> = Vec::new();
        let mut i: usize = 0;
        while i < self.live.len()
            invariant
                i <= self.live@.len(),
                targets@ == self.live@.take(i as int),
            decreases self.live@.len() - i,
        {
            targets.push(self.live[i]);
            proof {
                assert(targets@ =~= self.live@.take(i + 1));
            }
            i = i + 1;
        }
        proof {
            assert(self.live@.take(self.live@.len() as int) =~= self.live@);
        }
        let empty = self.live.len() == 0;
        (targets, empty)
    }

    /// Stop the system: like a drain, and the system actors follow once
    /// the book is empty.
    pub fn stop_system(&mut self) -> (r: (Vec<ActorId>, bool))
        requires
            old(self).wf(),
        ensures
            final(self).wf(),
            final(self).live@ == old(self).live@,
            final(self).draining,
            final(self).stopping,
            r.0@ == old(self).live@,
            r.1 == (old(self).live@.len() == 0),
    {
        self.stopping = true;
        let r = self.drain_system();
        r
    }
}

} // verus!
