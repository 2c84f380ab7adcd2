use rusflight::axis::CONTROL_ONE;
use rusflight::fixed::{Mat3, Vec3, FIXED_ONE};
use rusflight::input::{AxisInput, InputEvent};
use rusflight::vehicle::{Vehicle, SPAWN_HEIGHT};
use rusflight::wing::{Channel, Wing};
use rusflight::world::{BodyId, ColliderId, CollisionEvent, Quat};

fn ids() -> (BodyId, ColliderId) {
    (BodyId { index: 3, generation: 1 }, ColliderId { index: 4, generation: 1 })
}

fn identity() -> Mat3 {
    Mat3 {
        r0: Vec3 { x: FIXED_ONE, y: 0, z: 0 },
        r1: Vec3 { x: 0, y: FIXED_ONE, z: 0 },
        r2: Vec3 { x: 0, y: 0, z: FIXED_ONE },
    }
}

fn zero() -> Vec3 {
    Vec3 { x: 0, y: 0, z: 0 }
}

#[test]
fn new_vehicle_is_at_rest() {
    let v = Vehicle::new(ids());
    assert_eq!(v.body, ids().0);
    assert_eq!(v.collider, ids().1);
    assert_eq!(v.controls.thrust.value, 0);
    assert!(!v.is_grounded());
    assert_eq!(v.wings.len(), 6);
    assert_eq!(v.wings[0].channel, Channel::Aileron);
    assert_eq!(v.wings[2].channel, Channel::Elevator);
    assert_eq!(v.wings[5].channel, Channel::Rudder);
    assert_eq!(v.wing_forces(), vec![zero(); 6]);
}

#[test]
fn collision_with_other_colliders_is_ignored() {
    let mut v = Vehicle::new(ids());
    let a = ColliderId { index: 9, generation: 0 };
    let b = ColliderId { index: 4, generation: 2 };
    v.collide(CollisionEvent::Started(a, b));
    assert!(!v.is_grounded());
    v.touching_ground = true;
    v.collide(CollisionEvent::Stopped(a, b));
    assert!(v.is_grounded());
}

#[test]
fn collision_with_own_collider_toggles_grounded() {
    let mut v = Vehicle::new(ids());
    let ground = ColliderId { index: 0, generation: 0 };
    v.collide(CollisionEvent::Started(ground, ids().1));
    assert!(v.is_grounded());
    v.collide(CollisionEvent::Stopped(ids().1, ground));
    assert!(!v.is_grounded());
}

#[test]
fn latest_collision_event_decides() {
    let mut v = Vehicle::new(ids());
    let ground = ColliderId { index: 0, generation: 0 };
    let other = ColliderId { index: 7, generation: 0 };
    v.collide_all(&vec![
        CollisionEvent::Started(ground, ids().1),
        CollisionEvent::Started(ground, ids().1),
        CollisionEvent::Stopped(ground, ids().1),
        CollisionEvent::Started(ground, other),
    ]);
    assert!(!v.is_grounded());
    v.collide_all(&vec![CollisionEvent::Stopped(ground, ids().1), CollisionEvent::Started(ids().1, other)]);
    assert!(v.is_grounded());
}

#[test]
fn reset_gives_spawn_pose_and_keeps_controls() {
    let mut v = Vehicle::new(ids());
    v.update(&vec![InputEvent::Press(AxisInput::ThrustUp)], 400_000);
    v.touching_ground = true;
    let pose = v.reset();
    assert_eq!(pose.position, Vec3 { x: 0, y: SPAWN_HEIGHT, z: 0 });
    assert_eq!(pose.position.y, 20 * FIXED_ONE);
    assert_eq!(pose.rotation, Quat { w: FIXED_ONE, x: 0, y: 0, z: 0 });
    assert_eq!(v.controls.thrust.value, 400_000);
    assert!(v.is_grounded());
}

#[test]
fn update_records_edges_and_advances() {
    let mut v = Vehicle::new(ids());
    let moved = v.update(
        &vec![
            InputEvent::Press(AxisInput::ElevatorUp),
            InputEvent::Press(AxisInput::ThrustUp),
            InputEvent::Release(AxisInput::ThrustUp),
        ],
        250_000,
    );
    assert!(moved);
    assert_eq!(v.controls.elevator.value, 250_000);
    assert_eq!(v.controls.thrust.value, 0);
}

#[test]
fn paused_tick_records_edges_only() {
    let mut v = Vehicle::new(ids());
    let moved = v.update(&vec![InputEvent::Press(AxisInput::RudderLeft)], 0);
    assert!(!moved);
    assert!(v.controls.rudder.increasing);
    assert_eq!(v.controls.rudder.value, 0);
}

#[test]
fn deflection_follows_channel() {
    let mut v = Vehicle::new(ids());
    v.controls.aileron.value = CONTROL_ONE;
    v.controls.elevator.value = -CONTROL_ONE / 2;
    let d = v.deflections();
    assert_eq!(d.len(), 6);
    assert_eq!(d[0].angle, -157_080);
    assert_eq!(d[1].angle, 157_080);
    assert_eq!(d[2].angle, 157_079);
    assert_eq!(d[4].angle, 0);
    assert_eq!(d[4].axis, Vec3 { x: 0, y: FIXED_ONE, z: 0 });
}

#[test]
fn full_thrust_pushes_forward() {
    let mut v = Vehicle::new(ids());
    v.controls.thrust.value = CONTROL_ONE;
    let r = v.apply_forces(&identity(), &zero(), &vec![identity(); 6]);
    assert_eq!(r.linear, Vec3 { x: 0, y: 0, z: -500 * FIXED_ONE });
    assert_eq!(r.angular, zero());
}

#[test]
fn ground_steering_adds_yaw_torque() {
    let mut v = Vehicle::new(ids());
    v.controls.thrust.value = CONTROL_ONE;
    v.controls.rudder.value = CONTROL_ONE / 2;
    v.touching_ground = true;
    let r = v.apply_forces(&identity(), &zero(), &vec![identity(); 6]);
    assert_eq!(r.angular, Vec3 { x: 0, y: 150 * FIXED_ONE, z: 0 });
    v.touching_ground = false;
    let r = v.apply_forces(&identity(), &zero(), &vec![identity(); 6]);
    assert_eq!(r.angular, zero());
}

#[test]
fn thrust_follows_body_rotation() {
    let mut v = Vehicle::new(ids());
    v.controls.thrust.value = CONTROL_ONE / 10;
    // a quarter turn about y: the body's forward axis, minus z, points along minus x
    let quarter = Mat3 {
        r0: Vec3 { x: 0, y: 0, z: FIXED_ONE },
        r1: Vec3 { x: 0, y: FIXED_ONE, z: 0 },
        r2: Vec3 { x: -FIXED_ONE, y: 0, z: 0 },
    };
    let r = v.apply_forces(&quarter, &zero(), &vec![identity(); 6]);
    assert_eq!(r.linear, Vec3 { x: -50 * FIXED_ONE, y: 0, z: 0 });
}

#[test]
fn wing_forces_are_recorded() {
    let mut v = Vehicle::new(ids());
    let velocity = Vec3 { x: 0, y: 0, z: -100 * FIXED_ONE };
    let r = v.apply_forces(&identity(), &velocity, &vec![identity(); 6]);
    let forces = v.wing_forces();
    assert_eq!(forces[0], Vec3 { x: 0, y: 0, z: 25_000 });
    assert_eq!(forces[2], Vec3 { x: 0, y: 0, z: 15_000 });
    assert_eq!(forces[4], Vec3 { x: 0, y: 0, z: 15_000 });
    assert_eq!(r.linear, Vec3 { x: 0, y: 0, z: 2 * 25_000 + 4 * 15_000 });
    let w: &Wing = &v.wings[0];
    assert_eq!(w.sensitivity, -157_080);
}
