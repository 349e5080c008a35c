use vstd::prelude::*;

verus! {

/// One scheduled piece of work: a thunk or message identified by `id`,
/// due when the wheel's tick counter reaches `due_tick`. A periodic
/// entry (`period_ticks > 0`) is put back that many ticks ahead each
/// time it fires.
#[derive(Clone, Copy, PartialEq, Eq, Structural, Debug)]
pub struct TimerEntry {
    pub id: u64,
    pub due_tick: u64,
    pub period_ticks: u64,
    pub cancelled: bool,
}

/// How many ticks a delay takes on a wheel of the given granularity:
/// the delay rounded up to whole ticks.
pub open spec fn ticks_for(delay_ms: nat, tick_ms: nat) -> nat
    recommends
        tick_ms >= 1,
{
    ((delay_ms + tick_ms - 1) / tick_ms as int) as nat
}

/// Whether an entry fires when the counter stands at `tick`.
pub open spec fn entry_fires(e: TimerEntry, tick: nat) -> bool {
    !e.cancelled && e.due_tick <= tick
}

/// The ids that leave one advance of the wheel, in scheduling order.
pub open spec fn fired_of(entries: Seq<TimerEntry>, tick: nat) -> Seq<u64>
    decreases entries.len(),
{
    if entries.len() == 0 {
        Seq::<u64>::empty()
    } else {
        fired_of(entries.drop_last(), tick) + if entry_fires(entries.last(), tick) {
            seq![entries.last().id]
        } else {
            Seq::<u64>::empty()
        }
    }
}

/// The entries that remain after one advance: everything that did not
/// fire, unchanged, and each periodic entry that fired, put back one
/// period ahead of the tick it fired at.
pub open spec fn kept_of(entries: Seq<TimerEntry>, tick: nat) -> Seq<TimerEntry>
    decreases entries.len(),
{
    if entries.len() == 0 {
        Seq::<TimerEntry>::empty()
    } else {
        kept_of(entries.drop_last(), tick) + {
            let e = entries.last();
            if !entry_fires(e, tick) {
                seq![e]
            } else if e.period_ticks > 0 {
                seq![TimerEntry { due_tick: (tick + e.period_ticks) as u64, ..e }]
            } else {
                Seq::<TimerEntry>::empty()
            }
        }
    }
}

/// The entries with one id's cancelled flag raised.
pub open spec fn cancelled_in(entries: Seq<TimerEntry>, id: u64) -> Seq<TimerEntry> {
    entries.map_values(
        |e: TimerEntry|
            if e.id == id {
                TimerEntry { cancelled: true, ..e }
            } else {
                e
            },
    )
}

/// The timer: a single system actor advancing a wheel once per tick of
/// wall-clock granularity `tick_ms`, firing every entry that has come
/// due. The wheel's slot array is an indexing shortcut for the same
/// behaviour; the book of pending entries is the wheel's meaning.
pub struct Timer {
    pub tick_ms: u64,
    pub current_tick: u64,
    pub entries: Vec<TimerEntry>,
}

impl Timer {
    pub open spec fn wf(self) -> bool {
        self.tick_ms >= 1
    }

    /// A fresh wheel with the given tick granularity.
    pub fn new(tick_ms: u64) -> (r: Self)
        requires
            tick_ms >= 1,
        ensures
            r.wf(),
            r.tick_ms == tick_ms,
            r.current_tick == 0,
            r.entries@ == Seq::<TimerEntry>::empty(),
    {
        Timer { tick_ms, current_tick: 0, entries: Vec::new() }
    }

    /// Schedule a one-shot entry `after_ms` from now: it becomes due on
    /// the first tick at or past that delay.
    pub fn schedule_once(&mut self, after_ms: u64, id: u64)
        requires
            old(self).wf(),
            old(self).current_tick + ticks_for(after_ms as nat, old(self).tick_ms as nat)
                <= u64::MAX,
        ensures
            final(self).wf(),
            final(self).tick_ms == old(self).tick_ms,
            final(self).current_tick == old(self).current_tick,
            final(self).entries@ == old(self).entries@.push(
                TimerEntry {
                    id,
                    due_tick: (old(self).current_tick + ticks_for(
                        after_ms as nat,
                        old(self).tick_ms as nat,
                    )) as u64,
                    period_ticks: 0,
                    cancelled: false,
                },
            ),
    {
        let delay_ticks = if after_ms == 0 {
            0
        } else {
            (after_ms - 1) / self.tick_ms + 1
        };
        proof {
            if after_ms > 0 {
                lemma_ceil_step(after_ms - 1, self.tick_ms as int);
            } else {
                vstd::arithmetic::div_mod::lemma_basic_div(
                    self.tick_ms - 1,
                    self.tick_ms as int,
                );
            }
        }
        let entry = TimerEntry {
            id,
            due_tick: self.current_tick + delay_ticks,
            period_ticks: 0,
            cancelled: false,
        };
        self.entries.push(entry);
    }

    /// Schedule a periodic entry: first due `initial_ms` from now, then
    /// every `interval_ms`, rounded up to whole ticks (at least one).
    pub fn schedule_periodic(&mut self, initial_ms: u64, interval_ms: u64, id: u64)
        requires
            old(self).wf(),
            old(self).current_tick + ticks_for(initial_ms as nat, old(self).tick_ms as nat)
                <= u64::MAX,
            ticks_for(interval_ms as nat, old(self).tick_ms as nat) <= u64::MAX,
        ensures
            final(self).wf(),
            final(self).tick_ms == old(self).tick_ms,
            final(self).current_tick == old(self).current_tick,
            final(self).entries@.len() == old(self).entries@.len() + 1,
            final(self).entries@.drop_last() == old(self).entries@,
            final(self).entries@.last().id == id,
            final(self).entries@.last().due_tick == old(self).current_tick + ticks_for(
                initial_ms as nat,
                old(self).tick_ms as nat,
            ),
            final(self).entries@.last().period_ticks == (if ticks_for(
                interval_ms as nat,
                old(self).tick_ms as nat,
            ) == 0 {
                1nat
            } else {
                ticks_for(interval_ms as nat, old(self).tick_ms as nat)
            }),
            !final(self).entries@.last().cancelled,
    {
        let tick_ms = self.tick_ms;
        let ghost before = self.entries@;
        self.schedule_once(initial_ms, id);
        let interval_ticks = if interval_ms == 0 {
            1
        } else {
            (interval_ms - 1) / tick_ms + 1
        };
        proof {
            if interval_ms > 0 {
                lemma_ceil_step(interval_ms - 1, tick_ms as int);
                vstd::arithmetic::div_mod::lemma_div_pos_is_pos(interval_ms - 1, tick_ms as int);
            } else {
                vstd::arithmetic::div_mod::lemma_basic_div(tick_ms - 1, tick_ms as int);
            }
        }
        let last = self.entries.len() - 1;
        let due = self.entries[last].due_tick;
        let cancelled = self.entries[last].cancelled;
        self.entries.set(
            last,
            TimerEntry { id, due_tick: due, period_ticks: interval_ticks, cancelled },
        );
        proof {
            assert(self.entries@.drop_last() =~= before);
        }
    }

    /// Cancel every entry with this id. Best effort and idempotent: an
    /// entry that already fired is gone, and cancelling again changes
    /// nothing.
    pub fn cancel(&mut self, id: u64)
        requires
            old(self).wf(),
        ensures
            final(self).wf(),
            final(self).tick_ms == old(self).tick_ms,
            final(self).current_tick == old(self).current_tick,
            final(self).entries@ == cancelled_in(old(self).entries@, id),
    {
        let ghost before = self.entries@;
        let mut i: usize = 0;
        while i < self.entries.len()
            invariant
                i <= before.len(),
                self.entries@.len() == before.len(),
                forall|k: int| i <= k < before.len() ==> self.entries@[k] == before[k],
                forall|k: int|
                    0 <= k < i ==> self.entries@[k] == (if before[k].id == id {
                        TimerEntry { cancelled: true, ..before[k] }
                    } else {
                        before[k]
                    }),
                self.tick_ms == old(self).tick_ms,
                self.current_tick == old(self).current_tick,
            decreases before.len() - i,
        {
            if self.entries[i].id == id {
                let e = self.entries[i];
                self.entries.set(
                    i,
                    TimerEntry { cancelled: true, ..e },
                );
            }
            i = i + 1;
        }
        proof {
            assert(self.entries@ =~= cancelled_in(before, id));
        }
    }

    /// One tick of the wheel: the counter advances and every entry that
    /// has come due fires, in scheduling order. One-shot entries leave
    /// the wheel; periodic ones are put back a period ahead.
    pub fn advance(&mut self) -> (fired: Vec<u64>)
        requires
            old(self).wf(),
            old(self).current_tick < u64::MAX,
            forall|k: int|
                0 <= k < old(self).entries@.len() ==> old(self).current_tick + 1 + (
                #[trigger] old(self).entries@[k]).period_ticks <= u64::MAX,
        ensures
            final(self).wf(),
            final(self).tick_ms == old(self).tick_ms,
            final(self).current_tick == old(self).current_tick + 1,
            fired@ == fired_of(old(self).entries@, (old(self).current_tick + 1) as nat),
            final(self).entries@ == kept_of(old(self).entries@, (old(self).current_tick + 1) as nat),
    {
        self.current_tick = self.current_tick + 1;
        let tick = self.current_tick;
        let ghost before = self.entries@;
        let mut fired: Vec<u64> = Vec::new();
        let mut kept: Vec<TimerEntry> = Vec::new();
        let mut i: usize = 0;
        while i < self.entries.len()
            invariant
                i <= before.len(),
                self.entries@ == before,
                tick == self.current_tick,
                self.wf(),
                forall|k: int|
                    0 <= k < before.len() ==> self.current_tick + (#[trigger] before[k]).period_ticks
                        <= u64::MAX,
                fired@ == fired_of(before.take(i as int), tick as nat),
                kept@ == kept_of(before.take(i as int), tick as nat),
            decreases before.len() - i,
        {
            let e = self.entries[i];
            proof {
                assert(before.take(i + 1).drop_last() =~= before.take(i as int));
                assert(before.take(i + 1).last() == before[i as int]);
            }
            if !e.cancelled && e.due_tick <= tick {
                fired.push(e.id);
                if e.period_ticks > 0 {
                    kept.push(
                        TimerEntry { due_tick: tick + e.period_ticks, ..e },
                    );
                }
            } else {
                kept.push(e);
            }
            i = i + 1;
        }
        proof {
            assert(before.take(before.len() as int) =~= before);
        }
        self.entries = kept;
        fired
    }
}

/// The step from a floor division to the matching ceiling division:
/// pushing the dividend one whole divisor up raises the quotient by one.
proof fn lemma_ceil_step(x: int, d: int)
    requires
        d >= 1,
        x >= 0,
    ensures
        x / d + 1 == (x + d) / d,
{
    vstd::arithmetic::div_mod::lemma_fundamental_div_mod(x, d);
    vstd::arithmetic::div_mod::lemma_mod_bound(x, d);
    assert((x / d + 1) * d == (x / d) * d + d) by (nonlinear_arith);
    vstd::arithmetic::div_mod::lemma_fundamental_div_mod_converse(x + d, d, x / d + 1, x % d);
}

/// Timer monotonicity: of two delays scheduled from the same tick, the
/// shorter (or equal) one never fires on a later tick than the longer.
pub proof fn lemma_timer_monotone(d1: nat, d2: nat, tick_ms: nat)
    requires
        tick_ms >= 1,
        d1 <= d2,
    ensures
        ticks_for(d1, tick_ms) <= ticks_for(d2, tick_ms),
{
    vstd::arithmetic::div_mod::lemma_div_is_ordered(
        d1 + tick_ms - 1,
        d2 + tick_ms - 1,
        tick_ms as int,
    );
}

/// The firing window: a delay fires on the first tick at or past it, so
/// the wall-clock time at firing lies within one tick above the delay.
pub proof fn lemma_fire_within_tick(delay_ms: nat, tick_ms: nat)
    requires
        tick_ms >= 1,
    ensures
        delay_ms <= ticks_for(delay_ms, tick_ms) * tick_ms < delay_ms + tick_ms,
{
    let q = ticks_for(delay_ms, tick_ms) as int;
    let x = delay_ms + tick_ms - 1;
    vstd::arithmetic::div_mod::lemma_fundamental_div_mod(x as int, tick_ms as int);
    vstd::arithmetic::div_mod::lemma_mod_bound(x as int, tick_ms as int);
    assert(x == q * tick_ms + (x % (tick_ms as int)));
    assert(0 <= x % (tick_ms as int) < tick_ms);
    assert(delay_ms <= q * tick_ms < delay_ms + tick_ms) by (nonlinear_arith)
        requires
            x == q * tick_ms + (x % (tick_ms as int)),
            0 <= x % (tick_ms as int) < tick_ms,
            x == delay_ms + tick_ms - 1,
            tick_ms >= 1,
    ;
}

} // verus!
