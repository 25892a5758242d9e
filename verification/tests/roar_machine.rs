use dragon_sim::events::Event;
use dragon_sim::timed_state::TimedState;

#[test]
fn trigger_from_idle_starts() {
    let mut s = TimedState::new(3000);
    assert!(!s.active);
    let ev = s.trigger();
    assert_eq!(ev, Some(Event::RoarStarted));
    assert!(s.active);
    assert_eq!(s.remaining.elapsed_ms, 0);
}

#[test]
fn retrigger_while_active_is_noop() {
    let mut s = TimedState::new(3000);
    s.trigger();
    s.tick(1000);
    let before = s;
    let ev = s.trigger();
    assert_eq!(ev, None);
    assert_eq!(s, before);
}

#[test]
fn idle_tick_is_noop() {
    let mut s = TimedState::new(3000);
    let ev = s.tick(10000);
    assert_eq!(ev, None);
    assert!(!s.active);
}

#[test]
fn scenario_roar_duration_split() {
    let mut s = TimedState::new(3000);
    let ev = s.trigger();
    assert_eq!(ev, Some(Event::RoarStarted));
    let ev = s.tick(2999);
    assert_eq!(ev, None);
    assert!(s.active);
    let ev = s.tick(2);
    assert_eq!(ev, Some(Event::RoarEnded));
    assert!(!s.active);
    let ev = s.tick(100);
    assert_eq!(ev, None);
}

#[test]
fn roar_many_small_ticks_one_exit() {
    let mut s = TimedState::new(3000);
    s.trigger();
    let mut exits = 0;
    for _ in 0..30 {
        if s.tick(100) == Some(Event::RoarEnded) {
            exits += 1;
        }
    }
    assert_eq!(exits, 1);
    assert!(!s.active);
}

#[test]
fn roar_single_full_tick_one_exit() {
    let mut s = TimedState::new(3000);
    s.trigger();
    let ev = s.tick(3000);
    assert_eq!(ev, Some(Event::RoarEnded));
    assert!(!s.active);
}

#[test]
fn roar_overshoot_finishes_early() {
    let mut s = TimedState::new(3000);
    s.trigger();
    let ev = s.tick(10000);
    assert_eq!(ev, Some(Event::RoarEnded));
    assert!(!s.active);
}
