use pantomime::timer::Timer;

#[test]
fn thunk_fires_within_one_tick_of_its_delay() {
    // A 50 ms delay on a 10 ms wheel fires on the fifth tick: the
    // elapsed time at firing is 50 ms, inside [50 ms, 50 ms + tick).
    let mut timer = Timer::new(10);
    timer.schedule_once(50, 1);
    for _ in 0..4 {
        assert!(timer.advance().is_empty());
    }
    let fired = timer.advance();
    assert_eq!(fired, vec![1]);
    let elapsed_ms = timer.current_tick * timer.tick_ms;
    assert!(50 <= elapsed_ms && elapsed_ms < 50 + 10);
}

#[test]
fn earlier_deadlines_fire_no_later_than_later_ones() {
    let mut timer = Timer::new(10);
    timer.schedule_once(50, 2);
    timer.schedule_once(30, 1);
    let mut order = Vec::new();
    for _ in 0..10 {
        let fired = timer.advance();
        for id in fired {
            order.push(id);
        }
    }
    assert_eq!(order, vec![1, 2]);
}

#[test]
fn deadlines_in_the_same_tick_fire_together_in_schedule_order() {
    let mut timer = Timer::new(10);
    timer.schedule_once(42, 1);
    timer.schedule_once(45, 2);
    let mut fired = Vec::new();
    for _ in 0..5 {
        for id in timer.advance() {
            fired.push(id);
        }
    }
    assert_eq!(fired, vec![1, 2]);
}

#[test]
fn zero_delay_fires_on_the_next_tick() {
    let mut timer = Timer::new(10);
    timer.schedule_once(0, 7);
    assert_eq!(timer.advance(), vec![7]);
}

#[test]
fn cancel_is_idempotent_and_best_effort() {
    let mut timer = Timer::new(10);
    timer.schedule_once(30, 1);
    timer.cancel(1);
    let entries_after_one = timer.entries.clone();
    timer.cancel(1);
    assert_eq!(timer.entries, entries_after_one);
    for _ in 0..5 {
        assert!(timer.advance().is_empty());
    }
    // Cancelling an entry that already fired is a quiet no-op.
    timer.cancel(99);
}

#[test]
fn periodic_entries_fire_every_interval() {
    let mut timer = Timer::new(10);
    timer.schedule_periodic(20, 20, 4);
    let mut fire_ticks = Vec::new();
    for _ in 0..8 {
        let fired = timer.advance();
        if !fired.is_empty() {
            assert_eq!(fired, vec![4]);
            fire_ticks.push(timer.current_tick);
        }
    }
    assert_eq!(fire_ticks, vec![2, 4, 6, 8]);
}
