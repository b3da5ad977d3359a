use mtimer::clint::Clint;
use mtimer::critical::MachineInterrupts;
use mtimer::queue::{TimerQueue, WakeEntry, NO_ALARM};
use mtimer::time_driver::{init, is_timer_interrupt_pending, now, timer_interrupt_handler};

#[test]
fn queue_min_deadline_empty_is_sentinel() {
    let q = TimerQueue::new();
    assert_eq!(q.min_deadline(), NO_ALARM);
    assert_eq!(q.len(), 0);
    assert!(q.is_empty());
}

#[test]
fn queue_min_deadline_picks_smallest() {
    let mut q = TimerQueue::new();
    assert!(q.schedule_wake(300, 1));
    assert!(q.schedule_wake(100, 2));
    assert!(!q.schedule_wake(200, 3));
    assert_eq!(q.min_deadline(), 100);
    assert_eq!(q.len(), 3);
}

#[test]
fn queue_schedule_wake_reports_new_minimum() {
    let mut q = TimerQueue::new();
    assert!(q.schedule_wake(50, 1));
    assert!(!q.schedule_wake(70, 2));
    // a tie with the current minimum counts as the minimum
    assert!(q.schedule_wake(50, 3));
}

#[test]
fn queue_next_expiration_splits_exactly_at_now() {
    let mut q = TimerQueue::new();
    q.schedule_wake(10, 1);
    q.schedule_wake(20, 2);
    q.schedule_wake(30, 3);
    let (expired, next) = q.next_expiration(20);
    assert_eq!(expired, vec![
        WakeEntry { deadline: 10, waiter: 1 },
        WakeEntry { deadline: 20, waiter: 2 },
    ]);
    assert_eq!(next, 30);
    assert_eq!(q.len(), 1);
}

#[test]
fn queue_next_expiration_on_empty_queue() {
    let mut q = TimerQueue::new();
    let (expired, next) = q.next_expiration(1000);
    assert!(expired.is_empty());
    assert_eq!(next, NO_ALARM);
}

#[test]
fn two_alarms_fire_in_deadline_order() {
    // boot at hardware time 0
    let mut clint = Clint::new();
    let mut ints = MachineInterrupts::new();
    let mut driver = init(&clint, &mut ints);
    assert!(ints.read_mie() == false);

    driver.schedule_wake(&mut clint, &mut ints, 100, 1);
    assert_eq!(clint.read_mtimecmp(0), 100);

    // 50 is earlier than the pending 100: the comparator moves to it
    driver.schedule_wake(&mut clint, &mut ints, 50, 2);
    assert_eq!(clint.read_mtimecmp(0), 50);

    clint.advance(50);
    assert!(is_timer_interrupt_pending(&clint));
    let expired = driver.handle_timer_interrupt(&mut clint, &mut ints);
    assert_eq!(expired, vec![WakeEntry { deadline: 50, waiter: 2 }]);
    assert_eq!(clint.read_mtimecmp(0), 100);
    assert_eq!(driver.cached_alarm(), 100);

    clint.advance(50);
    let expired = driver.handle_timer_interrupt(&mut clint, &mut ints);
    assert_eq!(expired, vec![WakeEntry { deadline: 100, waiter: 1 }]);
    // nothing remains: comparator and cache disarmed
    assert_eq!(clint.read_mtimecmp(0), NO_ALARM);
    assert_eq!(driver.cached_alarm(), NO_ALARM);
}

#[test]
fn equal_deadlines_fire_on_one_interrupt() {
    let mut clint = Clint::new();
    let mut ints = MachineInterrupts::new();
    let mut driver = init(&clint, &mut ints);

    driver.schedule_wake(&mut clint, &mut ints, 200, 7);
    driver.schedule_wake(&mut clint, &mut ints, 200, 8);
    assert_eq!(clint.read_mtimecmp(0), 200);

    clint.advance(200);
    let expired = driver.handle_timer_interrupt(&mut clint, &mut ints);
    assert_eq!(expired.len(), 2);
    let mut waiters: Vec<u64> = expired.iter().map(|e| e.waiter).collect();
    waiters.sort();
    assert_eq!(waiters, vec![7, 8]);
    assert_eq!(clint.read_mtimecmp(0), NO_ALARM);
}

#[test]
fn past_deadline_still_fires_on_next_interrupt() {
    let mut clint = Clint::new();
    let mut ints = MachineInterrupts::new();
    clint.advance(100);
    let mut driver = init(&clint, &mut ints);

    // a deadline already in the past arms the comparator behind the
    // counter, so an interrupt is pending at once
    driver.schedule_wake(&mut clint, &mut ints, 50, 9);
    assert_eq!(clint.read_mtimecmp(0), 50);
    assert!(is_timer_interrupt_pending(&clint));

    let expired = driver.handle_timer_interrupt(&mut clint, &mut ints);
    assert_eq!(expired, vec![WakeEntry { deadline: 50, waiter: 9 }]);
    assert_eq!(clint.read_mtimecmp(0), NO_ALARM);
}

#[test]
fn interrupt_on_empty_queue_disarms() {
    let mut clint = Clint::new();
    let mut ints = MachineInterrupts::new();
    let mut driver = init(&clint, &mut ints);
    let expired = driver.handle_timer_interrupt(&mut clint, &mut ints);
    assert!(expired.is_empty());
    assert_eq!(clint.read_mtimecmp(0), NO_ALARM);
    assert_eq!(driver.cached_alarm(), NO_ALARM);
}

#[test]
fn driver_calls_preserve_interrupt_enable_state() {
    let mut clint = Clint::new();
    let mut ints = MachineInterrupts::new();
    ints.set_mie();
    let mut driver = init(&clint, &mut ints);
    driver.schedule_wake(&mut clint, &mut ints, 10, 1);
    assert!(ints.read_mie());
    clint.advance(10);
    driver.handle_timer_interrupt(&mut clint, &mut ints);
    assert!(ints.read_mie());
}

#[test]
fn free_interrupt_handler_matches_method() {
    let mut clint = Clint::new();
    let mut ints = MachineInterrupts::new();
    let mut driver = init(&clint, &mut ints);
    driver.schedule_wake(&mut clint, &mut ints, 5, 4);
    clint.advance(7);
    let expired = timer_interrupt_handler(&mut driver, &mut clint, &mut ints);
    assert_eq!(expired, vec![WakeEntry { deadline: 5, waiter: 4 }]);
}

#[test]
fn now_converts_hardware_ticks_to_scheduler_ticks() {
    let mut clint = Clint::new();
    assert_eq!(now(&clint), 0);
    // four megahertz counter against the one-megahertz scheduler tick
    clint.advance(4_000_000);
    assert_eq!(now(&clint), 1_000_000);
    clint.advance(7);
    assert_eq!(now(&clint), 1_000_001);
}

#[test]
fn read_time_is_monotonic_across_advances() {
    let mut clint = Clint::new();
    let mut last = clint.read_mtime();
    for step in [0u64, 1, 5, 0, 1000] {
        clint.advance(step);
        let t = clint.read_mtime();
        assert!(t >= last);
        last = t;
    }
}

#[test]
fn timer_interrupt_pending_tracks_comparator() {
    let mut clint = Clint::new();
    clint.write_mtimecmp(0, 10);
    assert!(!is_timer_interrupt_pending(&clint));
    clint.advance(9);
    assert!(!is_timer_interrupt_pending(&clint));
    clint.advance(1);
    assert!(is_timer_interrupt_pending(&clint));
}
