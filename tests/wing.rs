use rusflight::fixed::{Mat3, Vec3, FIXED_ONE};
use rusflight::wing::{Channel, Wing};

fn identity() -> Mat3 {
    Mat3 {
        r0: Vec3 { x: FIXED_ONE, y: 0, z: 0 },
        r1: Vec3 { x: 0, y: FIXED_ONE, z: 0 },
        r2: Vec3 { x: 0, y: 0, z: FIXED_ONE },
    }
}

fn tensor(xx: i64, yy: i64, zy: i64, zz: i64) -> Mat3 {
    Mat3 {
        r0: Vec3 { x: xx, y: 0, z: 0 },
        r1: Vec3 { x: 0, y: yy, z: 0 },
        r2: Vec3 { x: 0, y: zy, z: zz },
    }
}

fn wing(x: i64, y: i64, z: i64, aero: Mat3) -> Wing {
    Wing {
        pos: Vec3 { x, y, z },
        aero,
        channel: Channel::Aileron,
        axis: Vec3 { x: FIXED_ONE, y: 0, z: 0 },
        sensitivity: 157_080,
        force: Vec3 { x: 0, y: 0, z: 0 },
    }
}

#[test]
fn main_wing_force_and_torque() {
    let w = wing(4 * FIXED_ONE, FIXED_ONE, 0, tensor(-1_000, -65_000, -6_000, -250));
    let v = Vec3 { x: 0, y: 0, z: -100 * FIXED_ONE };
    let (f, t) = w.effect(&identity(), &identity(), &v, 0);
    // drag of 0.025 per unit of speed, backwards
    assert_eq!(f, Vec3 { x: 0, y: 0, z: 25_000 });
    // force crossed with the offset (4, 1, 0)
    assert_eq!(t, Vec3 { x: -25_000, y: 100_000, z: 0 });
}

#[test]
fn sink_rate_gives_lift() {
    let w = wing(0, 0, 0, tensor(-1_000, -65_000, -6_000, -250));
    let v = Vec3 { x: 0, y: -2 * FIXED_ONE, z: 0 };
    let (f, _) = w.effect(&identity(), &identity(), &v, 0);
    assert_eq!(f, Vec3 { x: 0, y: 13 * FIXED_ONE, z: 12_000 });
}

#[test]
fn deflection_turns_the_frame() {
    let w = wing(0, 0, 0, tensor(-1_000, -65_000, 0, -250));
    let v = Vec3 { x: 0, y: 0, z: -10 * FIXED_ONE };
    // a quarter turn about x: the wing's frame sees the velocity along its y axis
    let quarter = Mat3 {
        r0: Vec3 { x: FIXED_ONE, y: 0, z: 0 },
        r1: Vec3 { x: 0, y: 0, z: -FIXED_ONE },
        r2: Vec3 { x: 0, y: FIXED_ONE, z: 0 },
    };
    let (still, _) = w.effect(&identity(), &quarter, &v, 0);
    assert_eq!(still, Vec3 { x: 0, y: 0, z: 2_500 });
    let (turned, _) = w.effect(&identity(), &quarter, &v, 1);
    assert_eq!(turned, Vec3 { x: 0, y: 0, z: 650_000 });
}

#[test]
fn mirrored_tail_pair_has_no_net_torque() {
    let aero = tensor(-1_000, -19_000, 0, -150);
    let left = wing(-3 * FIXED_ONE, 0, 8 * FIXED_ONE, aero);
    let right = wing(3 * FIXED_ONE, 0, 8 * FIXED_ONE, aero);
    let v = Vec3 { x: 0, y: 0, z: -80 * FIXED_ONE };
    let (_, tl) = left.effect(&identity(), &identity(), &v, 0);
    let (_, tr) = right.effect(&identity(), &identity(), &v, 0);
    assert_ne!(tl, Vec3 { x: 0, y: 0, z: 0 });
    assert_eq!(Vec3 { x: tl.x + tr.x, y: tl.y + tr.y, z: tl.z + tr.z }, Vec3 { x: 0, y: 0, z: 0 });
}

#[test]
fn deflection_angle_scales_with_control() {
    let w = wing(0, 0, 0, tensor(0, 0, 0, 0));
    assert_eq!(w.deflection(1_000_000), 157_080);
    assert_eq!(w.deflection(-500_000), -78_540);
    assert_eq!(w.deflection(0), 0);
}
