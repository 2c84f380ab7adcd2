use vstd::prelude::*;
use crate::axis::CONTROL_ONE;
use crate::fixed::{
    vadd,
    dot,
    lemma_tdiv_neg,
    apply,
    apply_wide,
    bounded,
    compose,
    cross,
    cross_wide,
    mat_bounded,
    mat_mul,
    narrow,
    tdiv,
    tdiv_mat,
    tdiv_vec,
    transpose,
    transposed,
    widen,
    Mat3,
    Vec3,
    FIXED_ONE,
};

verus! {

/// Largest speed component handed to the wing model, in fixed point (ten thousand units).
pub const MAX_SPEED: i64 = 100_000_000;

/// Largest aerodynamic coefficient, in fixed point (a thousand units).
pub const MAX_COEFFICIENT: i64 = 10_000_000;

/// Largest offset of a wing from the centre of mass, in fixed point (a thousand units).
pub const MAX_OFFSET: i64 = 10_000_000;

/// Largest sensitivity, in microradians per unit of control (ten radians).
pub const MAX_SENSITIVITY: i64 = 10_000_000;

/// Bound on each component of the force that one wing produces.
pub const MAX_WING_FORCE: i64 = 24_300_000_000_000;

/// Bound on each component of the torque that one wing produces.
pub const MAX_WING_TORQUE: i64 = 145_800_000_000_000_000;

/// `FIXED_ONE` to the third and fifth powers: the scales of the unrounded force and torque.
pub const FORCE_SCALE: i128 = 1_000_000_000_000;

pub const TORQUE_SCALE: i128 = 100_000_000_000_000_000_000;

/// The control channel that deflects a wing.
#[derive(Clone, Copy, Debug, PartialEq, Eq, Structural)]
pub enum Channel {
    Unbound,
    Aileron,
    Elevator,
    Rudder,
}

/// An aerodynamic surface.
#[derive(Clone, Copy, Debug, PartialEq, Eq, Structural)]
pub struct Wing {
    /// Position of the wing's centre relative to the centre of mass.
    pub pos: Vec3,
    /// Maps the velocity in the wing's frame to the force in that frame.
    pub aero: Mat3,
    pub channel: Channel,
    /// The frame is turned about this axis when the channel is deflected.
    pub axis: Vec3,
    /// Microradians of rotation per unit of control.
    pub sensitivity: i64,
    /// Force of the latest tick, kept for display.
    pub force: Vec3,
}

pub type Mat = ((int, int, int), (int, int, int), (int, int, int));

/// The frame of the surface: the body's, turned by the deflection when the control is
/// not zero.
pub open spec fn actuated(rot: Mat, deflect: Mat, control: int) -> Mat {
    if control != 0 {
        tdiv_mat(mat_mul(rot, deflect), FIXED_ONE as int)
    } else {
        rot
    }
}

/// The world force before rounding: the velocity taken into the surface's frame,
/// mapped by the tensor, and taken back out.
pub open spec fn raw_force(act: Mat, aero: Mat, v: (int, int, int)) -> (int, int, int) {
    apply(act, apply(aero, apply(transpose(act), v)))
}

/// The torque before rounding: the force crossed with the wing's offset in the world.
pub open spec fn raw_torque(
    act: Mat,
    rot: Mat,
    aero: Mat,
    pos: (int, int, int),
    v: (int, int, int),
) -> (int, int, int) {
    cross(raw_force(act, aero, v), apply(rot, pos))
}

pub open spec fn wing_force(w: Wing, rot: Mat, deflect: Mat, v: (int, int, int), control: int) -> (
    int,
    int,
    int,
) {
    tdiv_vec(raw_force(actuated(rot, deflect, control), w.aero@, v), FORCE_SCALE as int)
}

pub open spec fn wing_torque(w: Wing, rot: Mat, deflect: Mat, v: (int, int, int), control: int) -> (
    int,
    int,
    int,
) {
    tdiv_vec(
        raw_torque(actuated(rot, deflect, control), rot, w.aero@, w.pos@, v),
        TORQUE_SCALE as int,
    )
}

/// Deflection angle in microradians for a control value in millionths.
pub open spec fn deflection_angle(w: Wing, control: int) -> int {
    tdiv(w.sensitivity * control, CONTROL_ONE as int)
}

/// Image of a vector across the body's left/right plane.
pub open spec fn mirror_vec(v: (int, int, int)) -> (int, int, int) {
    (-v.0, v.1, v.2)
}

/// Image of a tensor across the body's left/right plane.
pub open spec fn mirror_mat(m: Mat) -> Mat {
    ((m.0.0, -m.0.1, -m.0.2), (-m.1.0, m.1.1, m.1.2), (-m.2.0, m.2.1, m.2.2))
}

impl Wing {
    pub open spec fn wf(&self) -> bool {
        &&& bounded(self.pos@, MAX_OFFSET as int)
        &&& mat_bounded(self.aero@, MAX_COEFFICIENT as int)
        &&& bounded(self.axis@, FIXED_ONE as int)
        &&& -MAX_SENSITIVITY <= self.sensitivity <= MAX_SENSITIVITY
    }

    /// The deflection angle, in microradians, for a control value in millionths.
    pub fn deflection(&self, control: i64) -> (r: i64)
        requires
            self.wf(),
            -CONTROL_ONE <= control <= CONTROL_ONE,
        ensures
            r == deflection_angle(*self, control as int),
    {
        proof {
            crate::fixed::lemma_mul_bound(
                self.sensitivity as int,
                control as int,
                MAX_SENSITIVITY as int,
                CONTROL_ONE as int,
            );
        }
        let p = self.sensitivity * control;
        if p >= 0 {
            p / CONTROL_ONE
        } else {
            -((-p) / CONTROL_ONE)
        }
    }

    /// Force and torque of this wing for a body turned by `rot` and moving at
    /// `velocity`, with the control value `control` and the turn `deflect` that its
    /// deflection angle gives about the wing's axis.
    pub fn effect(&self, rot: &Mat3, deflect: &Mat3, velocity: &Vec3, control: i64) -> (r: (
        Vec3,
        Vec3,
    ))
        requires
            self.wf(),
            mat_bounded(rot@, FIXED_ONE as int),
            mat_bounded(deflect@, FIXED_ONE as int),
            bounded(velocity@, MAX_SPEED as int),
        ensures
            r.0@ == wing_force(*self, rot@, deflect@, velocity@, control as int),
            r.1@ == wing_torque(*self, rot@, deflect@, velocity@, control as int),
            bounded(r.0@, MAX_WING_FORCE as int),
            bounded(r.1@, MAX_WING_TORQUE as int),
    {
        let act = if control != 0 {
            compose(rot, deflect)
        } else {
            *rot
        };
        let a = Ghost(3 * FIXED_ONE as int);
        let inv = transposed(&act);
        let local_v = apply_wide(&inv, &widen(velocity), a, Ghost(MAX_SPEED as int));
        let local_f = apply_wide(
            &self.aero,
            &local_v,
            Ghost(MAX_COEFFICIENT as int),
            Ghost(9 * FIXED_ONE * MAX_SPEED),
        );
        let world_f = apply_wide(
            &act,
            &local_f,
            a,
            Ghost(27 * FIXED_ONE * MAX_SPEED * MAX_COEFFICIENT),
        );
        let offset = apply_wide(
            rot,
            &widen(&self.pos),
            Ghost(FIXED_ONE as int),
            Ghost(MAX_OFFSET as int),
        );
        let torque = cross_wide(
            &world_f,
            &offset,
            Ghost(243 * FIXED_ONE * FIXED_ONE * MAX_SPEED * MAX_COEFFICIENT),
            Ghost(3 * FIXED_ONE * MAX_OFFSET),
        );
        let force = narrow(&world_f, FORCE_SCALE, Ghost(MAX_WING_FORCE as int));
        let torque = narrow(&torque, TORQUE_SCALE, Ghost(MAX_WING_TORQUE as int));
        (force, torque)
    }
}

proof fn lemma_sum_product(x0: int, x1: int, x2: int, y0: int, y1: int, y2: int) by (nonlinear_arith)
    ensures
        (x0 + x1 + x2) * (y0 + y1 + y2) == x0 * y0 + x0 * y1 + x0 * y2 + x1 * y0 + x1 * y1 + x1 * y2
            + x2 * y0 + x2 * y1 + x2 * y2,
{
}

proof fn lemma_diff_product(x: int, y: int, s: int, t: int) by (nonlinear_arith)
    ensures
        (x - y) * (s - t) == x * s - x * t - y * s + y * t,
{
}

proof fn lemma_regroup(w: int, x: int, y: int, z: int) by (nonlinear_arith)
    ensures
        (w * x) * (y * z) == (w * y) * (x * z),
        (w * x) * (y * z) == (y * w) * (x * z),
{
}

/// (p.a)(q.b) - (q.a)(p.b) == (p x q).(a x b)
proof fn lemma_binet_cauchy(
    p0: int,
    p1: int,
    p2: int,
    q0: int,
    q1: int,
    q2: int,
    a0: int,
    a1: int,
    a2: int,
    b0: int,
    b1: int,
    b2: int,
)
    ensures
        (p0 * a0 + p1 * a1 + p2 * a2) * (q0 * b0 + q1 * b1 + q2 * b2) - (q0 * a0 + q1 * a1 + q2
            * a2) * (p0 * b0 + p1 * b1 + p2 * b2) == (p1 * q2 - p2 * q1) * (a1 * b2 - a2 * b1) + (
        p2 * q0 - p0 * q2) * (a2 * b0 - a0 * b2) + (p0 * q1 - p1 * q0) * (a0 * b1 - a1 * b0),
{
    lemma_sum_product(p0 * a0, p1 * a1, p2 * a2, q0 * b0, q1 * b1, q2 * b2);
    lemma_sum_product(q0 * a0, q1 * a1, q2 * a2, p0 * b0, p1 * b1, p2 * b2);
    lemma_regroup(p0, a0, q0, b0);
    lemma_regroup(q0, a0, p0, b0);
    lemma_regroup(p0, a0, q1, b1);
    lemma_regroup(q0, a0, p1, b1);
    lemma_regroup(p0, a0, q2, b2);
    lemma_regroup(q0, a0, p2, b2);
    lemma_regroup(p1, a1, q0, b0);
    lemma_regroup(q1, a1, p0, b0);
    lemma_regroup(p1, a1, q1, b1);
    lemma_regroup(q1, a1, p1, b1);
    lemma_regroup(p1, a1, q2, b2);
    lemma_regroup(q1, a1, p2, b2);
    lemma_regroup(p2, a2, q0, b0);
    lemma_regroup(q2, a2, p0, b0);
    lemma_regroup(p2, a2, q1, b1);
    lemma_regroup(q2, a2, p1, b1);
    lemma_regroup(p2, a2, q2, b2);
    lemma_regroup(q2, a2, p2, b2);
    lemma_diff_product(p1 * q2, p2 * q1, a1 * b2, a2 * b1);
    lemma_diff_product(p2 * q0, p0 * q2, a2 * b0, a0 * b2);
    lemma_diff_product(p0 * q1, p1 * q0, a0 * b1, a1 * b0);
}

/// The matrix of cofactors, by rows.
pub open spec fn cofactors(m: Mat) -> Mat {
    (cross(m.1, m.2), cross(m.2, m.0), cross(m.0, m.1))
}

/// Crossing two images of a matrix is applying its cofactors to the cross product.
proof fn lemma_cross_of_images(m: Mat, a: (int, int, int), b: (int, int, int))
    ensures
        cross(apply(m, a), apply(m, b)) == apply(cofactors(m), cross(a, b)),
{
    lemma_binet_cauchy(m.1.0, m.1.1, m.1.2, m.2.0, m.2.1, m.2.2, a.0, a.1, a.2, b.0, b.1, b.2);
    lemma_binet_cauchy(m.2.0, m.2.1, m.2.2, m.0.0, m.0.1, m.0.2, a.0, a.1, a.2, b.0, b.1, b.2);
    lemma_binet_cauchy(m.0.0, m.0.1, m.0.2, m.1.0, m.1.1, m.1.2, a.0, a.1, a.2, b.0, b.1, b.2);
}

proof fn lemma_dot_neg(c: (int, int, int), u: (int, int, int))
    ensures
        dot(c, (-u.0, -u.1, -u.2)) == -dot(c, u),
{
    assert(c.0 * (-u.0) == -(c.0 * u.0)) by (nonlinear_arith);
    assert(c.1 * (-u.1) == -(c.1 * u.1)) by (nonlinear_arith);
    assert(c.2 * (-u.2) == -(c.2 * u.2)) by (nonlinear_arith);
}

/// Two undeflected wings that mirror each other across the body's left/right plane,
/// on a body moving along its forward axis, give torques that cancel exactly. The pitch
/// terms of the two wings are equal rather than opposite, so they cancel only where
/// the wing's forward coefficients balance its offset:
/// `aero[1][2] * pos.z == aero[2][2] * pos.y`.
pub proof fn lemma_mirrored_wings_cancel(
    left: Wing,
    right: Wing,
    rot: Mat,
    deflect_left: Mat,
    deflect_right: Mat,
    v: (int, int, int),
)
    requires
        right.pos@ == mirror_vec(left.pos@),
        right.aero@ == mirror_mat(left.aero@),
        apply(transpose(rot), v).0 == 0,
        apply(transpose(rot), v).1 == 0,
        left.aero@.1.2 * left.pos@.2 == left.aero@.2.2 * left.pos@.1,
    ensures
        vadd(wing_torque(left, rot, deflect_left, v, 0), wing_torque(right, rot, deflect_right, v, 0))
            == (0int, 0int, 0int),
{
    let l = apply(transpose(rot), v);
    let m = left.aero@;
    let p = left.pos@;
    let w = l.2;
    let f = apply(m, l);
    let g = apply(mirror_mat(m), l);
    assert(f == (m.0.2 * w, m.1.2 * w, m.2.2 * w)) by {
        assert(m.0.0 * l.0 == 0 && m.0.1 * l.1 == 0) by (nonlinear_arith)
            requires
                l.0 == 0 && l.1 == 0,
        ;
        assert(m.1.0 * l.0 == 0 && m.1.1 * l.1 == 0) by (nonlinear_arith)
            requires
                l.0 == 0 && l.1 == 0,
        ;
        assert(m.2.0 * l.0 == 0 && m.2.1 * l.1 == 0) by (nonlinear_arith)
            requires
                l.0 == 0 && l.1 == 0,
        ;
    }
    assert(g == (-(m.0.2 * w), m.1.2 * w, m.2.2 * w)) by {
        assert(m.0.0 * l.0 == 0 && (-m.0.1) * l.1 == 0) by (nonlinear_arith)
            requires
                l.0 == 0 && l.1 == 0,
        ;
        assert((-m.1.0) * l.0 == 0 && m.1.1 * l.1 == 0) by (nonlinear_arith)
            requires
                l.0 == 0 && l.1 == 0,
        ;
        assert((-m.2.0) * l.0 == 0 && m.2.1 * l.1 == 0) by (nonlinear_arith)
            requires
                l.0 == 0 && l.1 == 0,
        ;
        assert((-m.0.2) * w == -(m.0.2 * w)) by (nonlinear_arith);
    }
    let u = cross(f, p);
    let u2 = cross(g, mirror_vec(p));
    assert(u2 == (-u.0, -u.1, -u.2)) by {
        let (f0, f1, f2) = f;
        assert((m.1.2 * w) * p.2 - (m.2.2 * w) * p.1 == 0) by (nonlinear_arith)
            requires
                m.1.2 * p.2 == m.2.2 * p.1,
        ;
        assert(f2 * (-p.0) == -(f2 * p.0)) by (nonlinear_arith);
        assert((-f0) * p.2 == -(f0 * p.2)) by (nonlinear_arith);
        assert((-f0) * p.1 == -(f0 * p.1)) by (nonlinear_arith);
        assert(f1 * (-p.0) == -(f1 * p.0)) by (nonlinear_arith);
    }
    lemma_cross_of_images(rot, f, p);
    lemma_cross_of_images(rot, g, mirror_vec(p));
    let c = cofactors(rot);
    lemma_dot_neg(c.0, u);
    lemma_dot_neg(c.1, u);
    lemma_dot_neg(c.2, u);
    let t = raw_torque(rot, rot, m, p, v);
    let t2 = raw_torque(rot, rot, right.aero@, right.pos@, v);
    assert(t2 == (-t.0, -t.1, -t.2));
    lemma_tdiv_neg(t.0, TORQUE_SCALE as int);
    lemma_tdiv_neg(t.1, TORQUE_SCALE as int);
    lemma_tdiv_neg(t.2, TORQUE_SCALE as int);
}

} // verus!
