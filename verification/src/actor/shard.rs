use vstd::prelude::*;

verus! {

/// What one batch takes off the front of a message queue when up to
/// `throughput` messages may be drained.
pub open spec fn batch_take<M>(queue: Seq<M>, throughput: nat) -> Seq<M> {
    if throughput <= queue.len() {
        queue.take(throughput as int)
    } else {
        queue
    }
}

/// What one batch leaves in the queue.
pub open spec fn batch_rest<M>(queue: Seq<M>, throughput: nat) -> Seq<M> {
    if throughput <= queue.len() {
        queue.skip(throughput as int)
    } else {
        Seq::<M>::empty()
    }
}

/// What is left of a queue after `rounds` batches, none of which saw new
/// arrivals.
pub open spec fn remaining_after<M>(queue: Seq<M>, throughput: nat, rounds: nat) -> Seq<M>
    decreases rounds,
{
    if rounds == 0 {
        queue
    } else {
        batch_rest(remaining_after(queue, throughput, (rounds - 1) as nat), throughput)
    }
}

/// The scheduling half of a shard: an atomic flag in the runtime,
/// modelled here as the state machine the flag's transitions follow.
/// At most one worker holds the shard between a winning `try_schedule`
/// and the matching `release`, which is what serializes every actor on
/// the shard.
pub struct ActorShard {
    pub scheduled: bool,
}

impl ActorShard {
    /// A fresh, unscheduled shard.
    pub fn new() -> (r: Self)
        ensures
            !r.scheduled,
    {
        ActorShard { scheduled: false }
    }

    /// A sender observed a message going in: flip the flag. The caller
    /// submits a run task exactly when the flip won — when the flag was
    /// clear — so the shard is enqueued at most once at a time.
    pub fn try_schedule(&mut self) -> (submit: bool)
        ensures
            final(self).scheduled,
            submit == !old(self).scheduled,
    {
        let submit = !self.scheduled;
        self.scheduled = true;
        submit
    }

    /// The running worker finished a batch. With messages still pending
    /// the shard stays scheduled and the worker resubmits it; otherwise
    /// the flag clears, and the next sender's `try_schedule` wins again.
    pub fn release(&mut self, pending: bool) -> (resubmit: bool)
        requires
            old(self).scheduled,
        ensures
            final(self).scheduled == pending,
            resubmit == pending,
    {
        self.scheduled = pending;
        pending
    }
}

/// Drain up to `throughput` messages off the front of a queue, in queue
/// order: the batch is exactly the front segment and the rest stays, so
/// no message is lost and none is reordered.
pub fn process_batch<M>(queue: &mut Vec<M>, throughput: usize) -> (processed: Vec<M>)
    ensures
        processed@ == batch_take(old(queue)@, throughput as nat),
        final(queue)@ == batch_rest(old(queue)@, throughput as nat),
{
    let ghost orig = queue@;
    let mut processed: Vec<M> = Vec::new();
    let mut i: usize = 0;
    while i < throughput && queue.len() > 0
        invariant
            i <= throughput,
            i <= orig.len(),
            processed@ == orig.take(i as int),
            queue@ == orig.skip(i as int),
            i < throughput ==> (queue@.len() == 0 <==> i == orig.len()),
        decreases orig.len() - i,
    {
        let message = queue.remove(0);
        processed.push(message);
        proof {
            assert(processed@ =~= orig.take(i + 1));
            assert(queue@ =~= orig.skip(i + 1));
        }
        i = i + 1;
    }
    proof {
        if i == orig.len() {
            assert(orig.take(i as int) =~= orig);
            assert(orig.skip(i as int) =~= Seq::<M>::empty());
        }
    }
    processed
}

/// Per-actor delivery order: a batch is a prefix of the queue, so any two
/// messages it processes are handled in exactly the order they were
/// appended, and the messages left behind follow all processed ones.
pub proof fn lemma_batch_preserves_order<M>(queue: Seq<M>, throughput: nat)
    ensures
        forall|i: int|
            0 <= i < batch_take(queue, throughput).len() ==> batch_take(queue, throughput)[i]
                == queue[i],
        forall|j: int|
            0 <= j < batch_rest(queue, throughput).len() ==> batch_rest(queue, throughput)[j]
                == queue[batch_take(queue, throughput).len() + j],
        batch_take(queue, throughput) + batch_rest(queue, throughput) == queue,
{
    assert(batch_take(queue, throughput) + batch_rest(queue, throughput) =~= queue);
}

/// Successive batches compose: running a shard for `k1` rounds and then
/// `k2` more leaves the same queue as running it for `k1 + k2` rounds,
/// so the front-first order of processing extends across shard visits.
pub proof fn lemma_batches_compose<M>(queue: Seq<M>, throughput: nat, k1: nat, k2: nat)
    ensures
        remaining_after(remaining_after(queue, throughput, k1), throughput, k2)
            == remaining_after(queue, throughput, (k1 + k2) as nat),
    decreases k2,
{
    if k2 == 0 {
    } else {
        lemma_batches_compose(queue, throughput, k1, (k2 - 1) as nat);
    }
}

/// No message is lost to a live actor: a message that sits in the queue
/// when the shard keeps running is processed after at most as many
/// batches as the queue is long — after that many rounds the queue is
/// empty, whatever the (positive) throughput.
pub proof fn lemma_queue_drains<M>(queue: Seq<M>, throughput: nat, rounds: nat)
    requires
        throughput >= 1,
        rounds >= queue.len(),
    ensures
        remaining_after(queue, throughput, rounds).len() == 0,
    decreases rounds,
{
    if rounds == 0 {
    } else {
        let before = remaining_after(queue, throughput, (rounds - 1) as nat);
        lemma_remaining_shrinks(queue, throughput, (rounds - 1) as nat);
        if before.len() == 0 {
            assert(batch_rest(before, throughput) =~= Seq::<M>::empty());
        }
    }
}

/// Each round removes at least one message while any remain: after `k`
/// rounds either nothing remains or at most `len - k` messages do.
pub proof fn lemma_remaining_shrinks<M>(queue: Seq<M>, throughput: nat, rounds: nat)
    requires
        throughput >= 1,
    ensures
        remaining_after(queue, throughput, rounds).len() == 0 || remaining_after(
            queue,
            throughput,
            rounds,
        ).len() + rounds <= queue.len(),
    decreases rounds,
{
    if rounds == 0 {
    } else {
        lemma_remaining_shrinks(queue, throughput, (rounds - 1) as nat);
    }
}

} // verus!
