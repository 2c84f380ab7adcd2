use vstd::prelude::*;
use crate::axis::CONTROL_ONE;
use crate::controls::{advanced, after_events, Controls};
use crate::fixed::{
    apply,
    apply_wide,
    bounded,
    mat_bounded,
    narrow,
    tdiv,
    tdiv_vec,
    vadd,
    widen,
    Mat3,
    Vec3,
    FIXED_ONE,
};
use crate::input::InputEvent;
use crate::wing::{
    deflection_angle,
    wing_force,
    wing_torque,
    Channel,
    Mat,
    Wing,
    MAX_SPEED,
    MAX_WING_FORCE,
    MAX_WING_TORQUE,
};
use crate::world::{
    identity_quat,
    BodyId,
    ColliderId,
    CollisionEvent,
    Deflection,
    Impulses,
    Pose,
    Quat,
};

verus! {

/// Most wings a vehicle carries.
pub const MAX_WINGS: usize = 16;

/// Forward impulse at full thrust, in fixed point (500 units).
pub const THRUST_IMPULSE: i64 = 5_000_000;

/// Yaw torque from wheel steering at full thrust and full rudder, in fixed point (300 units).
pub const STEERING_TORQUE: i64 = 3_000_000;

/// Height of the spawn point above the origin, in fixed point (20 units).
pub const SPAWN_HEIGHT: i64 = 200_000;

/// The vehicle controller: the handles of its body and collider, its control channels,
/// whether it touches the ground, and its wings.
pub struct Vehicle {
    pub body: BodyId,
    pub collider: ColliderId,
    pub controls: Controls,
    pub touching_ground: bool,
    pub wings: Vec<Wing>,
}

/// The value of the channel that drives a wing, in millionths; zero when unbound.
pub open spec fn control_value(c: Controls, channel: Channel) -> int {
    match channel {
        Channel::Unbound => 0,
        Channel::Aileron => c.aileron.value as int,
        Channel::Elevator => c.elevator.value as int,
        Channel::Rudder => c.rudder.value as int,
    }
}

pub open spec fn wing_force_at(
    wings: Seq<Wing>,
    c: Controls,
    rot: Mat,
    deflect: Seq<Mat3>,
    v: (int, int, int),
    i: int,
) -> (int, int, int) {
    wing_force(wings[i], rot, deflect[i]@, v, control_value(c, wings[i].channel))
}

pub open spec fn wing_torque_at(
    wings: Seq<Wing>,
    c: Controls,
    rot: Mat,
    deflect: Seq<Mat3>,
    v: (int, int, int),
    i: int,
) -> (int, int, int) {
    wing_torque(wings[i], rot, deflect[i]@, v, control_value(c, wings[i].channel))
}

/// Sum of the forces of the first `n` wings.
pub open spec fn forces_upto(
    wings: Seq<Wing>,
    c: Controls,
    rot: Mat,
    deflect: Seq<Mat3>,
    v: (int, int, int),
    n: nat,
) -> (int, int, int)
    decreases n,
{
    if n == 0 {
        (0, 0, 0)
    } else {
        vadd(
            forces_upto(wings, c, rot, deflect, v, (n - 1) as nat),
            wing_force_at(wings, c, rot, deflect, v, n - 1),
        )
    }
}

/// Sum of the torques of the first `n` wings.
pub open spec fn torques_upto(
    wings: Seq<Wing>,
    c: Controls,
    rot: Mat,
    deflect: Seq<Mat3>,
    v: (int, int, int),
    n: nat,
) -> (int, int, int)
    decreases n,
{
    if n == 0 {
        (0, 0, 0)
    } else {
        vadd(
            torques_upto(wings, c, rot, deflect, v, (n - 1) as nat),
            wing_torque_at(wings, c, rot, deflect, v, n - 1),
        )
    }
}

/// The forward impulse in the body's frame; the body points along minus z.
pub open spec fn thrust_local(thrust: int) -> (int, int, int) {
    (0, 0, -tdiv(THRUST_IMPULSE * thrust, CONTROL_ONE as int))
}

pub open spec fn thrust_impulse(rot: Mat, thrust: int) -> (int, int, int) {
    tdiv_vec(apply(rot, thrust_local(thrust)), FIXED_ONE as int)
}

/// The wheel-steering yaw torque in the body's frame, about its up axis.
pub open spec fn steering_local(thrust: int, rudder: int) -> (int, int, int) {
    (0, tdiv(STEERING_TORQUE * (thrust * rudder), CONTROL_ONE * CONTROL_ONE), 0)
}

pub open spec fn steering_torque(rot: Mat, thrust: int, rudder: int) -> (int, int, int) {
    tdiv_vec(apply(rot, steering_local(thrust, rudder)), FIXED_ONE as int)
}

/// The grounded flag after a collision event: events that do not involve `mine` leave
/// it as it was, a start sets it and a stop clears it.
pub open spec fn grounded_after(mine: ColliderId, grounded: bool, e: CollisionEvent) -> bool {
    match e {
        CollisionEvent::Started(a, b) => if a == mine || b == mine {
            true
        } else {
            grounded
        },
        CollisionEvent::Stopped(a, b) => if a == mine || b == mine {
            false
        } else {
            grounded
        },
    }
}

/// The grounded flag after a step's collision events, delivered in order: the latest
/// event that involves `mine` decides.
pub open spec fn grounded_after_all(mine: ColliderId, grounded: bool, events: Seq<CollisionEvent>) -> bool
    decreases events.len(),
{
    if events.len() == 0 {
        grounded
    } else {
        grounded_after(mine, grounded_after_all(mine, grounded, events.drop_last()), events.last())
    }
}

/// Only events that name the vehicle's own collider reach its grounded flag: such a
/// start sets it and the matching stop clears it again; any other event leaves it.
pub proof fn lemma_grounded_scoping(mine: ColliderId, grounded: bool, a: ColliderId, b: ColliderId)
    ensures
        a != mine && b != mine ==> grounded_after(mine, grounded, CollisionEvent::Started(a, b))
            == grounded && grounded_after(mine, grounded, CollisionEvent::Stopped(a, b)) == grounded,
        a == mine || b == mine ==> grounded_after(mine, grounded, CollisionEvent::Started(a, b)),
        a == mine || b == mine ==> !grounded_after(
            mine,
            grounded_after(mine, grounded, CollisionEvent::Started(a, b)),
            CollisionEvent::Stopped(a, b),
        ),
{
}

pub open spec fn spawn_pose() -> Pose {
    Pose { position: Vec3 { x: 0, y: SPAWN_HEIGHT, z: 0 }, rotation: identity_quat() }
}

/// A wing as it is built: no force recorded yet.
pub open spec fn new_wing(
    pos: Vec3,
    aero: Mat3,
    channel: Channel,
    axis: Vec3,
    sensitivity: i64,
) -> Wing {
    Wing { pos, aero, channel, axis, sensitivity, force: Vec3 { x: 0, y: 0, z: 0 } }
}

pub open spec fn diag_tensor(xx: i64, yy: i64, zy: i64, zz: i64) -> Mat3 {
    Mat3 {
        r0: Vec3 { x: xx, y: 0, z: 0 },
        r1: Vec3 { x: 0, y: yy, z: 0 },
        r2: Vec3 { x: 0, y: zy, z: zz },
    }
}

pub open spec fn main_tensor() -> Mat3 {
    diag_tensor(-1_000i64, -65_000i64, -6_000i64, -250i64)
}

pub open spec fn tail_tensor() -> Mat3 {
    diag_tensor(-1_000i64, -19_000i64, 0, -150i64)
}

pub open spec fn rudder_tensor() -> Mat3 {
    diag_tensor(-15_000i64, -500i64, 0, -150i64)
}

pub open spec fn along_x() -> Vec3 {
    Vec3 { x: FIXED_ONE, y: 0, z: 0 }
}

pub open spec fn along_y() -> Vec3 {
    Vec3 { x: 0, y: FIXED_ONE, z: 0 }
}

/// The craft's surfaces: main wings on the ailerons, tail wings on the elevator and
/// the two fins on the rudder.
pub open spec fn standard_wings() -> Seq<Wing> {
    seq![
        new_wing(Vec3 { x: 40_000i64, y: 10_000i64, z: 0 }, main_tensor(), Channel::Aileron, along_x(), -157_080i64),
        new_wing(Vec3 { x: -40_000i64, y: 10_000i64, z: 0 }, main_tensor(), Channel::Aileron, along_x(), 157_080i64),
        new_wing(Vec3 { x: 30_000i64, y: 0, z: 80_000i64 }, tail_tensor(), Channel::Elevator, along_x(), -314_159i64),
        new_wing(Vec3 { x: -30_000i64, y: 0, z: 80_000i64 }, tail_tensor(), Channel::Elevator, along_x(), -314_159i64),
        new_wing(Vec3 { x: 20_000i64, y: 20_000i64, z: 70_000i64 }, rudder_tensor(), Channel::Rudder, along_y(), -471_239i64),
        new_wing(Vec3 { x: -20_000i64, y: 20_000i64, z: 70_000i64 }, rudder_tensor(), Channel::Rudder, along_y(), -471_239i64),
    ]
}

fn tensor(xx: i64, yy: i64, zy: i64, zz: i64) -> (r: Mat3)
    ensures
        r == diag_tensor(xx, yy, zy, zz),
{
    Mat3 {
        r0: Vec3 { x: xx, y: 0, z: 0 },
        r1: Vec3 { x: 0, y: yy, z: 0 },
        r2: Vec3 { x: 0, y: zy, z: zz },
    }
}

fn wing_at(x: i64, y: i64, z: i64, aero: Mat3, channel: Channel, axis: Vec3, sensitivity: i64) -> (r:
    Wing)
    ensures
        r == new_wing(Vec3 { x, y, z }, aero, channel, axis, sensitivity),
{
    Wing {
        pos: Vec3 { x, y, z },
        aero,
        channel,
        axis,
        sensitivity,
        force: Vec3 { x: 0, y: 0, z: 0 },
    }
}

fn standard_wing_table() -> (r: Vec<Wing>)
    ensures
        r@ == standard_wings(),
{
    let main = tensor(-1_000, -65_000, -6_000, -250);
    let tail = tensor(-1_000, -19_000, 0, -150);
    let fin = tensor(-15_000, -500, 0, -150);
    let x = Vec3 { x: FIXED_ONE, y: 0, z: 0 };
    let y = Vec3 { x: 0, y: FIXED_ONE, z: 0 };
    let mut r: Vec<Wing> = Vec::new();
    r.push(wing_at(40_000, 10_000, 0, main, Channel::Aileron, x, -157_080));
    r.push(wing_at(-40_000, 10_000, 0, main, Channel::Aileron, x, 157_080));
    r.push(wing_at(30_000, 0, 80_000, tail, Channel::Elevator, x, -314_159));
    r.push(wing_at(-30_000, 0, 80_000, tail, Channel::Elevator, x, -314_159));
    r.push(wing_at(20_000, 20_000, 70_000, fin, Channel::Rudder, y, -471_239));
    r.push(wing_at(-20_000, 20_000, 70_000, fin, Channel::Rudder, y, -471_239));
    assert(r@ =~= standard_wings());
    r
}

impl Vehicle {
    pub open spec fn wf(&self) -> bool {
        &&& self.controls.wf()
        &&& self.wings.len() <= MAX_WINGS
        &&& forall|i: int| 0 <= i < self.wings.len() ==> (#[trigger] self.wings@[i]).wf()
    }

    /// A vehicle at rest on the given body and collider, with the standard wings.
    pub fn new(handles: (BodyId, ColliderId)) -> (r: Vehicle)
        ensures
            r.wf(),
            r.body == handles.0,
            r.collider == handles.1,
            r.controls == Controls::new_spec(),
            !r.touching_ground,
            r.wings@ == standard_wings(),
    {
        let wings = standard_wing_table();
        proof {
            assert(forall|i: int| 0 <= i < wings.len() ==> (#[trigger] wings@[i]).wf());
        }
        Vehicle {
            body: handles.0,
            collider: handles.1,
            controls: Controls::new(),
            touching_ground: false,
            wings,
        }
    }

    /// Records the input edges of a tick, in order, then advances the channels by `dt`
    /// microseconds. A tick with no elapsed time only records the edges; the result
    /// says whether forces are due this tick.
    pub fn update(&mut self, events: &Vec<InputEvent>, dt: u64) -> (r: bool)
        requires
            old(self).wf(),
        ensures
            final(self).wf(),
            *final(self) == (Vehicle {
                controls: advanced(after_events(old(self).controls, events@), dt as int),
                ..*old(self)
            }),
            r == (dt != 0),
    {
        let ghost start = self.controls;
        let mut i: usize = 0;
        while i < events.len()
            invariant
                0 <= i <= events.len(),
                self.controls == after_events(start, events@.subrange(0, i as int)),
                self.body == old(self).body,
                self.collider == old(self).collider,
                self.touching_ground == old(self).touching_ground,
                self.wings == old(self).wings,
                start == old(self).controls,
                start.wf(),
            decreases events.len() - i,
        {
            assert(events@.subrange(0, i + 1).drop_last() =~= events@.subrange(0, i as int));
            self.controls.apply(events[i]);
            i += 1;
        }
        assert(events@.subrange(0, events.len() as int) =~= events@);
        proof {
            crate::controls::lemma_events_keep_values(start, events@);
        }
        self.controls.advance(dt);
        dt != 0
    }

    fn control_of(&self, channel: Channel) -> (r: i64)
        requires
            self.controls.wf(),
        ensures
            r == control_value(self.controls, channel),
            -CONTROL_ONE <= r <= CONTROL_ONE,
    {
        match channel {
            Channel::Unbound => 0,
            Channel::Aileron => self.controls.aileron.value,
            Channel::Elevator => self.controls.elevator.value,
            Channel::Rudder => self.controls.rudder.value,
        }
    }

    /// For each wing, the turn of its frame that its channel asks for this tick.
    pub fn deflections(&self) -> (r: Vec<Deflection>)
        requires
            self.wf(),
        ensures
            r.len() == self.wings.len(),
            forall|i: int|
                0 <= i < r.len() ==> #[trigger] r@[i] == (Deflection {
                    axis: self.wings@[i].axis,
                    angle: deflection_angle(
                        self.wings@[i],
                        control_value(self.controls, self.wings@[i].channel),
                    ) as i64,
                }),
    {
        let mut r: Vec<Deflection> = Vec::new();
        let mut i: usize = 0;
        while i < self.wings.len()
            invariant
                self.wf(),
                0 <= i <= self.wings.len(),
                r.len() == i,
                forall|j: int|
                    0 <= j < i ==> #[trigger] r@[j] == (Deflection {
                        axis: self.wings@[j].axis,
                        angle: deflection_angle(
                            self.wings@[j],
                            control_value(self.controls, self.wings@[j].channel),
                        ) as i64,
                    }),
            decreases self.wings.len() - i,
        {
            let w = &self.wings[i];
            let control = self.control_of(w.channel);
            r.push(Deflection { axis: w.axis, angle: w.deflection(control) });
            i += 1;
        }
        r
    }

    /// Computes this tick's impulses on a body turned by `rot` and moving at `velocity`,
    /// where `deflect[i]` is the turn that wing `i`'s deflection gives about its axis,
    /// and records each wing's force. The linear impulse is the wings' forces plus the
    /// forward thrust; the angular one is their torques, plus the steering torque while
    /// on the ground.
    pub fn apply_forces(&mut self, rot: &Mat3, velocity: &Vec3, deflect: &Vec<Mat3>) -> (r:
        Impulses)
        requires
            old(self).wf(),
            mat_bounded(rot@, FIXED_ONE as int),
            bounded(velocity@, MAX_SPEED as int),
            deflect.len() == old(self).wings.len(),
            forall|i: int| 0 <= i < deflect.len() ==> mat_bounded(#[trigger] deflect@[i]@, FIXED_ONE as int),
        ensures
            final(self).wf(),
            final(self).body == old(self).body,
            final(self).collider == old(self).collider,
            final(self).controls == old(self).controls,
            final(self).touching_ground == old(self).touching_ground,
            final(self).wings.len() == old(self).wings.len(),
            forall|i: int|
                0 <= i < final(self).wings.len() ==> #[trigger] final(self).wings@[i] == (Wing {
                    force: final(self).wings@[i].force,
                    ..old(self).wings@[i]
                }) && final(self).wings@[i].force@ == wing_force_at(
                    old(self).wings@,
                    old(self).controls,
                    rot@,
                    deflect@,
                    velocity@,
                    i,
                ),
            r.linear@ == vadd(
                forces_upto(
                    old(self).wings@,
                    old(self).controls,
                    rot@,
                    deflect@,
                    velocity@,
                    old(self).wings.len() as nat,
                ),
                thrust_impulse(rot@, old(self).controls.thrust.value as int),
            ),
            r.angular@ == vadd(
                torques_upto(
                    old(self).wings@,
                    old(self).controls,
                    rot@,
                    deflect@,
                    velocity@,
                    old(self).wings.len() as nat,
                ),
                if old(self).touching_ground {
                    steering_torque(
                        rot@,
                        old(self).controls.thrust.value as int,
                        old(self).controls.rudder.value as int,
                    )
                } else {
                    (0, 0, 0)
                },
            ),
    {
        let ghost wings0 = self.wings@;
        let ghost c = self.controls;
        let n = self.wings.len();
        let mut lin = Vec3 { x: 0, y: 0, z: 0 };
        let mut ang = Vec3 { x: 0, y: 0, z: 0 };
        let mut i: usize = 0;
        while i < n
            invariant
                0 <= i <= n,
                n == self.wings.len(),
                n == wings0.len(),
                n == deflect.len(),
                n <= MAX_WINGS,
                c == old(self).controls,
                wings0 == old(self).wings@,
                self.controls == c,
                c.wf(),
                self.body == old(self).body,
                self.collider == old(self).collider,
                self.touching_ground == old(self).touching_ground,
                mat_bounded(rot@, FIXED_ONE as int),
                bounded(velocity@, MAX_SPEED as int),
                forall|j: int| 0 <= j < deflect.len() ==> mat_bounded(#[trigger] deflect@[j]@, FIXED_ONE as int),
                forall|j: int| 0 <= j < n ==> (#[trigger] wings0[j]).wf(),
                forall|j: int|
                    0 <= j < i ==> #[trigger] self.wings@[j] == (Wing {
                        force: self.wings@[j].force,
                        ..wings0[j]
                    }) && self.wings@[j].force@ == wing_force_at(wings0, c, rot@, deflect@, velocity@, j),
                forall|j: int| i <= j < n ==> #[trigger] self.wings@[j] == wings0[j],
                lin@ == forces_upto(wings0, c, rot@, deflect@, velocity@, i as nat),
                ang@ == torques_upto(wings0, c, rot@, deflect@, velocity@, i as nat),
                bounded(lin@, i * MAX_WING_FORCE),
                bounded(ang@, i * MAX_WING_TORQUE),
            decreases n - i,
        {
            let w = self.wings[i];
            let control = self.control_of(w.channel);
            let (f, t) = w.effect(rot, &deflect[i], velocity, control);
            lin = Vec3 { x: lin.x + f.x, y: lin.y + f.y, z: lin.z + f.z };
            ang = Vec3 { x: ang.x + t.x, y: ang.y + t.y, z: ang.z + t.z };
            let mut updated = w;
            updated.force = f;
            self.wings.set(i, updated);
            i += 1;
        }
        let push = thrust_world(rot, self.controls.thrust.value);
        let steer = if self.touching_ground {
            steering_world(rot, self.controls.thrust.value, self.controls.rudder.value)
        } else {
            Vec3 { x: 0, y: 0, z: 0 }
        };
        proof {
            assert forall|j: int| 0 <= j < self.wings.len() implies (#[trigger] self.wings@[j]).wf() by {
                assert(wings0[j].wf());
            }
        }
        Impulses {
            linear: Vec3 { x: lin.x + push.x, y: lin.y + push.y, z: lin.z + push.z },
            angular: Vec3 { x: ang.x + steer.x, y: ang.y + steer.y, z: ang.z + steer.z },
        }
    }

    /// The pose the body is put back to on a reset: the spawn point, unrotated. The
    /// controls and the grounded flag are left as they are.
    pub fn reset(&self) -> (r: Pose)
        ensures
            r == spawn_pose(),
    {
        Pose { position: Vec3 { x: 0, y: SPAWN_HEIGHT, z: 0 }, rotation: Quat::identity() }
    }

    /// Updates the grounded flag from a collision event of the physics world.
    pub fn collide(&mut self, e: CollisionEvent)
        ensures
            *final(self) == (Vehicle {
                touching_ground: grounded_after(old(self).collider, old(self).touching_ground, e),
                ..*old(self)
            }),
    {
        let (a, b, started) = match e {
            CollisionEvent::Started(a, b) => (a, b, true),
            CollisionEvent::Stopped(a, b) => (a, b, false),
        };
        if a != self.collider && b != self.collider {
            return ;
        }
        self.touching_ground = started;
    }

    /// Updates the grounded flag from all collision events of a step, in order.
    pub fn collide_all(&mut self, events: &Vec<CollisionEvent>)
        ensures
            *final(self) == (Vehicle {
                touching_ground: grounded_after_all(
                    old(self).collider,
                    old(self).touching_ground,
                    events@,
                ),
                ..*old(self)
            }),
    {
        let mut i: usize = 0;
        while i < events.len()
            invariant
                0 <= i <= events.len(),
                *self == (Vehicle {
                    touching_ground: grounded_after_all(
                        old(self).collider,
                        old(self).touching_ground,
                        events@.subrange(0, i as int),
                    ),
                    ..*old(self)
                }),
            decreases events.len() - i,
        {
            assert(events@.subrange(0, i + 1).drop_last() =~= events@.subrange(0, i as int));
            self.collide(events[i]);
            i += 1;
        }
        assert(events@.subrange(0, events.len() as int) =~= events@);
    }

    /// The force each wing produced in the latest tick, in wing order.
    pub fn wing_forces(&self) -> (r: Vec<Vec3>)
        ensures
            r.len() == self.wings.len(),
            forall|i: int| 0 <= i < r.len() ==> #[trigger] r@[i] == self.wings@[i].force,
    {
        let mut r: Vec<Vec3> = Vec::new();
        let mut i: usize = 0;
        while i < self.wings.len()
            invariant
                0 <= i <= self.wings.len(),
                r.len() == i,
                forall|j: int| 0 <= j < i ==> #[trigger] r@[j] == self.wings@[j].force,
            decreases self.wings.len() - i,
        {
            r.push(self.wings[i].force);
            i += 1;
        }
        r
    }

    pub fn is_grounded(&self) -> (r: bool)
        ensures
            r == self.touching_ground,
    {
        self.touching_ground
    }
}

fn thrust_world(rot: &Mat3, thrust: i64) -> (r: Vec3)
    requires
        mat_bounded(rot@, FIXED_ONE as int),
        0 <= thrust <= CONTROL_ONE,
    ensures
        r@ == thrust_impulse(rot@, thrust as int),
        bounded(r@, 3 * THRUST_IMPULSE),
{
    let local = Vec3 { x: 0, y: 0, z: -((THRUST_IMPULSE * thrust) / CONTROL_ONE) };
    let w = apply_wide(rot, &widen(&local), Ghost(FIXED_ONE as int), Ghost(THRUST_IMPULSE as int));
    narrow(&w, FIXED_ONE as i128, Ghost(3 * THRUST_IMPULSE))
}

fn steering_world(rot: &Mat3, thrust: i64, rudder: i64) -> (r: Vec3)
    requires
        mat_bounded(rot@, FIXED_ONE as int),
        0 <= thrust <= CONTROL_ONE,
        -CONTROL_ONE <= rudder <= CONTROL_ONE,
    ensures
        r@ == steering_torque(rot@, thrust as int, rudder as int),
        bounded(r@, 3 * STEERING_TORQUE),
{
    proof {
        crate::fixed::lemma_mul_bound(
            thrust as int,
            rudder as int,
            CONTROL_ONE as int,
            CONTROL_ONE as int,
        );
    }
    let p = (STEERING_TORQUE as i128) * ((thrust as i128) * (rudder as i128));
    let d = (CONTROL_ONE as i128) * (CONTROL_ONE as i128);
    let y = if p >= 0 {
        p / d
    } else {
        -((-p) / d)
    };
    let local = Vec3 { x: 0, y: y as i64, z: 0 };
    let w = apply_wide(rot, &widen(&local), Ghost(FIXED_ONE as int), Ghost(STEERING_TORQUE as int));
    narrow(&w, FIXED_ONE as i128, Ghost(3 * STEERING_TORQUE))
}

} // verus!
