use rapier3d::na::{Rotation3, Vector3};
use rapier3d::prelude::{
    BroadPhase, CCDSolver, ColliderBuilder, ColliderSet, ImpulseJointSet,
    IntegrationParameters, IslandManager, MultibodyJointSet, NarrowPhase, PhysicsPipeline,
    RigidBodyBuilder, RigidBodySet,
};
use rusflight::axis::CONTROL_ONE;
use rusflight::fixed::{Mat3, Vec3, FIXED_ONE};
use rusflight::input::{AxisInput, InputEvent};
use rusflight::vehicle::Vehicle;
use rusflight::world::{BodyId, ColliderId};

fn fixed(x: f32) -> i64 {
    (x * FIXED_ONE as f32).round() as i64
}

fn to_real(x: i64) -> f32 {
    x as f32 / FIXED_ONE as f32
}

fn mat_of(r: &Rotation3<f32>) -> Mat3 {
    let m = r.matrix();
    let row = |i: usize| Vec3 { x: fixed(m[(i, 0)]), y: fixed(m[(i, 1)]), z: fixed(m[(i, 2)]) };
    Mat3 { r0: row(0), r1: row(1), r2: row(2) }
}

#[test]
fn holding_thrust_for_a_second_flies_forward() {
    let mut bodies = RigidBodySet::new();
    let mut colliders = ColliderSet::new();
    colliders.insert(ColliderBuilder::cuboid(10_000., 0.1, 10_000.).build());
    let body = RigidBodyBuilder::dynamic()
        .translation(Vector3::new(0., 20., 0.))
        .linear_damping(0.001)
        .build();
    let collider = ColliderBuilder::cuboid(13.06 * 0.5, 5.64 * 0.5, 19.43 * 0.5)
        .restitution(0.7)
        .friction(0.001)
        .build();
    let body_handle = bodies.insert(body);
    let collider_handle = colliders.insert_with_parent(collider, body_handle, &mut bodies);
    let (bi, bg) = body_handle.into_raw_parts();
    let (ci, cg) = collider_handle.into_raw_parts();
    let mut vehicle = Vehicle::new((
        BodyId { index: bi, generation: bg },
        ColliderId { index: ci, generation: cg },
    ));

    let gravity = Vector3::new(0.0, -9.81, 0.0);
    let params = IntegrationParameters::default();
    let mut pipeline = PhysicsPipeline::new();
    let mut islands = IslandManager::new();
    let mut broad_phase = BroadPhase::new();
    let mut narrow_phase = NarrowPhase::new();
    let mut impulse_joints = ImpulseJointSet::new();
    let mut multibody_joints = MultibodyJointSet::new();
    let mut ccd = CCDSolver::new();

    let mut previous_forward = -bodies[body_handle].translation().z;
    for tick in 0..60 {
        let events = if tick == 0 { vec![InputEvent::Press(AxisInput::ThrustUp)] } else { vec![] };
        assert!(vehicle.update(&events, 16_667));
        let body = &mut bodies[body_handle];
        let rot = mat_of(&body.rotation().to_rotation_matrix());
        let v = body.linvel();
        let velocity = Vec3 { x: fixed(v.x), y: fixed(v.y), z: fixed(v.z) };
        let deflect: Vec<Mat3> = vehicle
            .deflections()
            .iter()
            .map(|d| {
                let axis = Vector3::new(to_real(d.axis.x), to_real(d.axis.y), to_real(d.axis.z));
                mat_of(&Rotation3::new(axis * (d.angle as f32 * 1e-6)))
            })
            .collect();
        let impulses = vehicle.apply_forces(&rot, &velocity, &deflect);
        assert!(vehicle.controls.thrust.value > 0);
        assert!(impulses.linear.z < 0);
        let l = impulses.linear;
        let a = impulses.angular;
        body.apply_impulse(Vector3::new(to_real(l.x), to_real(l.y), to_real(l.z)), true);
        body.apply_torque_impulse(Vector3::new(to_real(a.x), to_real(a.y), to_real(a.z)), true);
        pipeline.step(
            &gravity,
            &params,
            &mut islands,
            &mut broad_phase,
            &mut narrow_phase,
            &mut bodies,
            &mut colliders,
            &mut impulse_joints,
            &mut multibody_joints,
            &mut ccd,
            None,
            &(),
            &(),
        );
        let forward = -bodies[body_handle].translation().z;
        assert!(forward > previous_forward, "tick {}: {} <= {}", tick, forward, previous_forward);
        previous_forward = forward;
    }
    assert_eq!(vehicle.controls.thrust.value, CONTROL_ONE);
    assert!(!vehicle.is_grounded());
}
