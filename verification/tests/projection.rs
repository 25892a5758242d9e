use dragon_sim::projector::{project, project_agent};
use dragon_sim::vecmath::Vec3;

#[test]
fn project_subtracts_agent() {
    let world = Vec3 { x: 50, y: -20, z: 1 };
    let agent = Vec3 { x: 15, y: 5, z: 2 };
    let screen = project(&world, &agent);
    assert_eq!(screen, Vec3 { x: 35, y: -25, z: 1 });
}

#[test]
fn project_idempotent_same_inputs() {
    let world = Vec3 { x: -500, y: -1000, z: 1 };
    let agent = Vec3 { x: 700, y: 1500, z: 2 };
    let first = project(&world, &agent);
    let second = project(&world, &agent);
    assert_eq!(first, second);
}

#[test]
fn project_linearity_concrete() {
    let w1 = Vec3 { x: 120, y: 40, z: 1 };
    let w2 = Vec3 { x: -30, y: 90, z: 1 };
    let agent = Vec3 { x: 15, y: -15, z: 2 };
    let p1 = project(&w1, &agent);
    let p2 = project(&w2, &agent);
    assert_eq!(p1.x - p2.x, w1.x - w2.x);
    assert_eq!(p1.y - p2.y, w1.y - w2.y);
}

#[test]
fn project_agent_pinned_at_origin() {
    let agent = Vec3 { x: 300, y: -700, z: 2 };
    let screen = project_agent(&agent);
    assert_eq!(screen, Vec3 { x: 0, y: 0, z: 2 });
}
