use dragon_sim::agent::Agent;
use dragon_sim::attachable::Attachable;
use dragon_sim::config::{AGENT_ID, MOVE_COOLDOWN_MS};
use dragon_sim::cooldown::Cooldown;
use dragon_sim::events::Event;
use dragon_sim::input::InputState;
use dragon_sim::vecmath::{Vec2, Vec3};

fn held(up: bool, down: bool, left: bool, right: bool) -> InputState {
    InputState { up, down, left, right, confirm: false, roar: false }
}

#[test]
fn cooldown_new_starts_unready() {
    let c = Cooldown::new(100);
    assert!(!c.is_ready());
    assert_eq!(c.elapsed_ms, 0);
    assert_eq!(c.duration_ms, 100);
}

#[test]
fn cooldown_tick_accumulates_and_saturates() {
    let mut c = Cooldown::new(100);
    assert!(!c.tick(60));
    assert_eq!(c.elapsed_ms, 60);
    assert!(c.tick(1000));
    assert_eq!(c.elapsed_ms, 100);
}

#[test]
fn cooldown_zero_dt_is_noop() {
    let mut c = Cooldown::new(100);
    c.tick(40);
    let before = c;
    assert!(!c.tick(0));
    assert_eq!(c, before);
}

#[test]
fn cooldown_zero_duration_always_ready() {
    let mut c = Cooldown::new(0);
    assert!(c.is_ready());
    assert!(c.tick(0));
    assert!(c.is_ready());
}

#[test]
fn cooldown_stays_ready_until_reset() {
    let mut c = Cooldown::new(50);
    assert!(c.tick(50));
    assert!(c.tick(0));
    assert!(c.is_ready());
    c.reset();
    assert!(!c.is_ready());
    assert_eq!(c.elapsed_ms, 0);
    assert_eq!(c.duration_ms, 50);
}

fn ready_agent_at(x: i64, y: i64) -> Agent {
    let mut a = Agent::new(Vec3 { x, y, z: 2 }, 100);
    a.advance_cooldown(MOVE_COOLDOWN_MS);
    a
}

#[test]
fn displacement_diagonal_sums() {
    let a = ready_agent_at(0, 0);
    let d = a.compute_displacement(&held(true, false, false, true));
    assert_eq!(d, Vec2 { x: 15, y: 15 });
}

#[test]
fn displacement_opposite_keys_cancel() {
    let a = ready_agent_at(0, 0);
    let d = a.compute_displacement(&held(true, true, true, true));
    assert_eq!(d, Vec2 { x: 0, y: 0 });
}

#[test]
fn displacement_zero_when_cooldown_not_ready() {
    let a = Agent::new(Vec3 { x: 0, y: 0, z: 2 }, 100);
    let d = a.compute_displacement(&held(true, false, false, true));
    assert_eq!(d, Vec2 { x: 0, y: 0 });
}

#[test]
fn try_apply_accepts_exact_move() {
    let mut a = ready_agent_at(0, 0);
    assert!(a.try_apply(Vec2 { x: 15, y: -15 }));
    assert_eq!(a.position, Vec3 { x: 15, y: -15, z: 2 });
}

#[test]
fn try_apply_rejects_whole_displacement() {
    let mut a = ready_agent_at(715, 0);
    assert!(!a.try_apply(Vec2 { x: 15, y: 0 }));
    assert_eq!(a.position, Vec3 { x: 715, y: 0, z: 2 });
}

#[test]
fn try_apply_rejects_zero_displacement() {
    let mut a = ready_agent_at(10, 10);
    assert!(!a.try_apply(Vec2 { x: 0, y: 0 }));
    assert_eq!(a.position, Vec3 { x: 10, y: 10, z: 2 });
}

#[test]
fn try_apply_resets_cooldown() {
    let mut a = ready_agent_at(0, 0);
    assert!(a.move_cooldown.is_ready());
    assert!(a.try_apply(Vec2 { x: 15, y: 0 }));
    assert!(!a.move_cooldown.is_ready());
    assert_eq!(a.move_cooldown.elapsed_ms, 0);
}

#[test]
fn scenario_boundary_marches_48_steps() {
    let mut a = ready_agent_at(0, 0);
    for i in 1..=48 {
        assert!(a.try_apply(Vec2 { x: 15, y: 0 }));
        assert_eq!(a.position.x, 15 * i);
    }
    assert_eq!(a.position, Vec3 { x: 720, y: 0, z: 2 });
    assert!(!a.try_apply(Vec2 { x: 15, y: 0 }));
    assert_eq!(a.position, Vec3 { x: 720, y: 0, z: 2 });
}

#[test]
fn pickup_at_exact_reach_boundary() {
    let mut t = Attachable::new(Vec3 { x: 100, y: 0, z: 1 });
    let ev = t.on_trigger(Vec3 { x: 0, y: 0, z: 2 }, 100, AGENT_ID);
    assert_eq!(ev, Some(Event::PickedUp));
    assert_eq!(t.carried_by, Some(AGENT_ID));
}

#[test]
fn pickup_beyond_reach_is_noop() {
    let mut t = Attachable::new(Vec3 { x: 101, y: 0, z: 1 });
    let ev = t.on_trigger(Vec3 { x: 0, y: 0, z: 2 }, 100, AGENT_ID);
    assert_eq!(ev, None);
    assert_eq!(t.carried_by, None);
    assert_eq!(t.position, Vec3 { x: 101, y: 0, z: 1 });
}

#[test]
fn drop_is_unconditional() {
    let mut t = Attachable::new(Vec3 { x: 0, y: 0, z: 1 });
    t.on_trigger(Vec3 { x: 0, y: 0, z: 2 }, 100, AGENT_ID);
    assert_eq!(t.carried_by, Some(AGENT_ID));
    let ev = t.on_trigger(Vec3 { x: 700, y: 1500, z: 2 }, 100, AGENT_ID);
    assert_eq!(ev, Some(Event::Dropped));
    assert_eq!(t.carried_by, None);
}

#[test]
fn pickup_raises_layer_drop_lowers() {
    let mut t = Attachable::new(Vec3 { x: 10, y: 10, z: 1 });
    t.on_trigger(Vec3 { x: 0, y: 0, z: 2 }, 100, AGENT_ID);
    assert_eq!(t.position.z, 3);
    t.on_trigger(Vec3 { x: 0, y: 0, z: 2 }, 100, AGENT_ID);
    assert_eq!(t.position.z, 1);
}

#[test]
fn propagate_moves_carried_exactly() {
    let mut t = Attachable::new(Vec3 { x: 10, y: 10, z: 1 });
    t.on_trigger(Vec3 { x: 0, y: 0, z: 2 }, 100, AGENT_ID);
    t.propagate(Vec2 { x: -15, y: 15 });
    assert_eq!(t.position.x, -5);
    assert_eq!(t.position.y, 25);
}

#[test]
fn propagate_leaves_free_untouched() {
    let mut t = Attachable::new(Vec3 { x: 10, y: 10, z: 1 });
    t.propagate(Vec2 { x: -15, y: 15 });
    assert_eq!(t.position, Vec3 { x: 10, y: 10, z: 1 });
}

#[test]
fn displacement_released_input_is_zero() {
    let a = ready_agent_at(0, 0);
    let d = a.compute_displacement(&InputState::released());
    assert_eq!(d, Vec2 { x: 0, y: 0 });
}
