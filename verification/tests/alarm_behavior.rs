use alarm_mux::CENTURY_TICKS;
use alarm_mux::TICK_MAX;
use alarm_mux::clock::SimClock;
use alarm_mux::clock::TickClock;
use alarm_mux::driver::TimerDriver;
use alarm_mux::manager::AlarmManager;
use alarm_mux::manager::ManagerAction;
use alarm_mux::manager::ManagerEvent;

fn started_driver() -> TimerDriver<u64> {
    let mut d: TimerDriver<u64> = TimerDriver::new();
    d.initialize();
    d
}

/// Drive the watcher loop under simulated time until nothing fires before
/// `horizon`; returns every (deadline, waker) notification in order.
fn run_until(
    driver: &mut TimerDriver<u64>,
    mgr: &mut AlarmManager,
    clock: &mut SimClock,
    horizon: u64,
) -> Vec<(u64, u64)> {
    let mut fired: Vec<(u64, u64)> = Vec::new();
    loop {
        mgr.poll_mailbox(driver);
        match mgr.next_action(clock) {
            ManagerAction::WaitForMailbox => break,
            ManagerAction::RaceDelay(t) => {
                if t >= horizon {
                    break;
                }
                // A delay aimed at an instant that has already passed
                // completes immediately; otherwise time advances to it.
                if t > clock.now() {
                    clock.advance_to(t);
                }
                fired.extend(mgr.on_event(driver, clock, ManagerEvent::DelayElapsed));
            }
        }
    }
    fired
}

#[test]
fn now_is_monotonic_across_calls() {
    let mut clock = SimClock::new(10, 3);
    let mut driver = started_driver();
    let mut last = driver.now(&mut clock);
    for i in 0..20u64 {
        if i == 5 {
            driver.schedule_wake(1_000, 1, &mut clock);
        }
        if i == 11 {
            driver.schedule_wake(2, 2, &mut clock);
        }
        let r = driver.now(&mut clock);
        assert!(r >= last);
        last = r;
    }
}

#[test]
fn initialize_publishes_sentinel() {
    let mut driver: TimerDriver<u64> = TimerDriver::new();
    assert_eq!(driver.alarm_try_take(), None);
    driver.initialize();
    assert!(driver.alarm_signaled());
    assert_eq!(driver.alarm_try_take(), Some(TICK_MAX));
    assert_eq!(driver.alarm_try_take(), None);
}

#[test]
fn schedule_future_arms_mailbox() {
    let mut clock = SimClock::new(0, 0);
    let mut driver = started_driver();
    driver.alarm_try_take();
    let fired = driver.schedule_wake(100, 7, &mut clock);
    assert!(fired.is_empty());
    assert_eq!(driver.alarm_try_take(), Some(100));
}

#[test]
fn scenario_three_deadlines_fire_in_order() {
    // At now = 0, schedule deadlines {100, 50, 200}: notifications must
    // come in deadline order as simulated time advances.
    let mut clock = SimClock::new(0, 0);
    let mut driver = started_driver();
    let mut mgr = AlarmManager::new();
    assert!(driver.schedule_wake(100, 1, &mut clock).is_empty());
    assert!(driver.schedule_wake(50, 2, &mut clock).is_empty());
    assert!(driver.schedule_wake(200, 3, &mut clock).is_empty());
    let fired = run_until(&mut driver, &mut mgr, &mut clock, 10_000);
    assert_eq!(fired, vec![(50, 2), (100, 1), (200, 3)]);
}

#[test]
fn scenario_already_past_fires_immediately() {
    // At now = 20, a deadline of 10 has already elapsed: the scheduling
    // call itself returns the notification, no waiting involved.
    let mut clock = SimClock::new(20, 0);
    let mut driver = started_driver();
    let fired = driver.schedule_wake(10, 9, &mut clock);
    assert_eq!(fired, vec![(10, 9)]);
    // The queue is empty again, so the mailbox settles to the sentinel.
    assert_eq!(driver.alarm_try_take(), Some(TICK_MAX));
}

#[test]
fn scenario_sentinel_parks_on_century_delay() {
    // A deadline of TICK_MAX means "never": no notification within any
    // bounded horizon, and the watcher parks on a century-scale delay.
    let mut clock = SimClock::new(0, 0);
    let mut driver = started_driver();
    let mut mgr = AlarmManager::new();
    assert!(driver.schedule_wake(TICK_MAX, 4, &mut clock).is_empty());
    mgr.poll_mailbox(&mut driver);
    match mgr.next_action(&mut clock) {
        ManagerAction::RaceDelay(t) => {
            assert!(t >= CENTURY_TICKS);
            assert!(t < TICK_MAX);
        }
        ManagerAction::WaitForMailbox => panic!("expected a delay"),
    }
    let fired = run_until(&mut driver, &mut mgr, &mut clock, 1_000_000_000);
    assert!(fired.is_empty());
}

#[test]
fn sentinel_delay_has_exact_century_offset() {
    let mut clock = SimClock::new(7, 0);
    let mut mgr = AlarmManager::new();
    let mut driver = started_driver();
    let none = mgr.on_event(&mut driver, &mut clock, ManagerEvent::MailboxValue(TICK_MAX));
    assert!(none.is_empty());
    assert_eq!(
        mgr.next_action(&mut clock),
        ManagerAction::RaceDelay(7 + 103_337_164_800_000)
    );
}

#[test]
fn empty_queue_settles_to_sentinel_without_polling() {
    let mut clock = SimClock::new(0, 0);
    let mut driver = started_driver();
    let mut mgr = AlarmManager::new();
    driver.schedule_wake(50, 1, &mut clock);
    let fired = run_until(&mut driver, &mut mgr, &mut clock, 10_000);
    assert_eq!(fired, vec![(50, 1)]);
    // The rearm after the last expiry republished the sentinel, and the
    // watcher's poll adopted it: the next action is the century fallback,
    // not a short delay.
    mgr.poll_mailbox(&mut driver);
    match mgr.next_action(&mut clock) {
        ManagerAction::RaceDelay(t) => assert!(t >= 50 + CENTURY_TICKS),
        ManagerAction::WaitForMailbox => {}
    }
}

#[test]
fn elapsed_candidate_retries_with_next_soonest() {
    // A clock that advances by 15 at every reading: the candidate chosen
    // by the first resolution has already elapsed when it is validated,
    // so the rearm drains it and retries with the next-soonest deadline.
    let mut clock = SimClock::new(10, 15);
    let mut driver = started_driver();
    driver.schedule_wake(1_000, 2, &mut clock);
    let fired = driver.schedule_wake(20, 1, &mut clock);
    assert_eq!(fired, vec![(20, 1)]);
    // The alarm was not left disarmed: it holds the surviving deadline.
    assert_eq!(driver.alarm_try_take(), Some(1_000));
}

#[test]
fn equal_deadlines_all_fire() {
    let mut clock = SimClock::new(0, 0);
    let mut driver = started_driver();
    let mut mgr = AlarmManager::new();
    driver.schedule_wake(50, 1, &mut clock);
    driver.schedule_wake(50, 2, &mut clock);
    let mut fired = run_until(&mut driver, &mut mgr, &mut clock, 10_000);
    fired.sort();
    assert_eq!(fired, vec![(50, 1), (50, 2)]);
}

#[test]
fn manager_waits_before_first_value_then_races() {
    let mut clock = SimClock::new(0, 0);
    let mut driver = started_driver();
    driver.alarm_try_take();
    let mut mgr = AlarmManager::new();
    mgr.poll_mailbox(&mut driver);
    assert_eq!(mgr.next_action(&mut clock), ManagerAction::WaitForMailbox);
    let none = mgr.on_event(&mut driver, &mut clock, ManagerEvent::MailboxValue(100));
    assert!(none.is_empty());
    assert_eq!(mgr.next_action(&mut clock), ManagerAction::RaceDelay(100));
}

#[test]
fn mailbox_updates_preempt_the_pending_delay() {
    // While racing toward 100, a sooner deadline arrives: the watcher
    // adopts it and the earlier entry still fires first.
    let mut clock = SimClock::new(0, 0);
    let mut driver = started_driver();
    let mut mgr = AlarmManager::new();
    driver.schedule_wake(100, 1, &mut clock);
    mgr.poll_mailbox(&mut driver);
    assert_eq!(mgr.next_action(&mut clock), ManagerAction::RaceDelay(100));
    driver.schedule_wake(30, 2, &mut clock);
    // The mailbox now holds 30; the race is won by the mailbox side.
    mgr.poll_mailbox(&mut driver);
    assert_eq!(mgr.next_action(&mut clock), ManagerAction::RaceDelay(30));
    let fired = run_until(&mut driver, &mut mgr, &mut clock, 10_000);
    assert_eq!(fired, vec![(30, 2), (100, 1)]);
}

#[test]
fn every_scheduled_entry_fires_exactly_once() {
    let mut clock = SimClock::new(0, 0);
    let mut driver = started_driver();
    let mut mgr = AlarmManager::new();
    let deadlines = [400u64, 100, 300, 100, 200, 250, 50];
    let mut all = Vec::new();
    for (w, at) in deadlines.iter().enumerate() {
        all.extend(driver.schedule_wake(*at, w as u64, &mut clock));
    }
    all.extend(run_until(&mut driver, &mut mgr, &mut clock, 10_000));
    assert_eq!(all.len(), deadlines.len());
    let mut sorted = all.clone();
    sorted.sort();
    let mut expected: Vec<(u64, u64)> = deadlines
        .iter()
        .enumerate()
        .map(|(w, at)| (*at, w as u64))
        .collect();
    expected.sort();
    assert_eq!(sorted, expected);
    // No notification came before its deadline: the fire time is the
    // delay target, which run_until sets the clock to before resolving.
    for i in 1..all.len() {
        assert!(all[i - 1].0 <= all[i].0);
    }
}

#[test]
fn mailbox_keeps_only_the_last_write() {
    let mut mb = alarm_mux::mailbox::AlarmMailbox::new();
    assert_eq!(mb.try_take(), None);
    mb.signal(5);
    mb.signal(7);
    assert!(mb.signaled());
    assert_eq!(mb.try_take(), Some(7));
    assert!(!mb.signaled());
    assert_eq!(mb.try_take(), None);
}

#[test]
fn past_deadline_behind_the_minimum_fires_next_iteration() {
    // A deadline that has elapsed but does not become the queue's minimum
    // is not returned by the scheduling call itself; the already-armed
    // (and also elapsed) target makes the watcher's next iteration drain
    // both. Nothing waits indefinitely.
    let mut clock = SimClock::new(0, 0);
    let mut driver = started_driver();
    let mut mgr = AlarmManager::new();
    assert!(driver.schedule_wake(30, 1, &mut clock).is_empty());
    clock.advance_to(100);
    assert!(driver.schedule_wake(40, 2, &mut clock).is_empty());
    let fired = run_until(&mut driver, &mut mgr, &mut clock, 10_000);
    assert_eq!(fired, vec![(30, 1), (40, 2)]);
}
