use vstd::prelude::*;
use crate::fixed::{Vec3, FIXED_ONE};

verus! {

/// Handle of a rigid body in the physics world: a slot and the generation of its use.
#[derive(Clone, Copy, Debug, PartialEq, Eq, Structural)]
pub struct BodyId {
    pub index: u32,
    pub generation: u32,
}

/// Handle of a collider in the physics world.
#[derive(Clone, Copy, Debug, PartialEq, Eq, Structural)]
pub struct ColliderId {
    pub index: u32,
    pub generation: u32,
}

/// A contact between two colliders that began or ended during a step.
#[derive(Clone, Copy, Debug, PartialEq, Eq, Structural)]
pub enum CollisionEvent {
    Started(ColliderId, ColliderId),
    Stopped(ColliderId, ColliderId),
}

/// A rotation as a quaternion in fixed point.
#[derive(Clone, Copy, Debug, PartialEq, Eq, Structural)]
pub struct Quat {
    pub w: i64,
    pub x: i64,
    pub y: i64,
    pub z: i64,
}

/// Position and orientation of a body.
#[derive(Clone, Copy, Debug, PartialEq, Eq, Structural)]
pub struct Pose {
    pub position: Vec3,
    pub rotation: Quat,
}

/// Linear and angular impulse to apply to a body in one tick.
#[derive(Clone, Copy, Debug, PartialEq, Eq, Structural)]
pub struct Impulses {
    pub linear: Vec3,
    pub angular: Vec3,
}

/// A turn of a wing's frame about its axis, by an angle in microradians.
#[derive(Clone, Copy, Debug, PartialEq, Eq, Structural)]
pub struct Deflection {
    pub axis: Vec3,
    pub angle: i64,
}

pub open spec fn identity_quat() -> Quat {
    Quat { w: FIXED_ONE, x: 0, y: 0, z: 0 }
}

impl Quat {
    pub fn identity() -> (r: Quat)
        ensures
            r == identity_quat(),
    {
        Quat { w: FIXED_ONE, x: 0, y: 0, z: 0 }
    }
}

} // verus!
