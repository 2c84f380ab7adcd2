use vstd::prelude::*;
use crate::axis::{advanced_value, ControlAxis, CONTROL_ONE};
use crate::input::{AxisInput, InputEvent};

verus! {

/// The four control channels.
#[derive(Clone, Copy, Debug, PartialEq, Eq, Structural)]
pub struct Controls {
    pub thrust: ControlAxis,
    pub aileron: ControlAxis,
    pub elevator: ControlAxis,
    pub rudder: ControlAxis,
}

pub open spec fn with_increasing(a: ControlAxis, on: bool) -> ControlAxis {
    ControlAxis { increasing: on, ..a }
}

pub open spec fn with_decreasing(a: ControlAxis, on: bool) -> ControlAxis {
    ControlAxis { decreasing: on, ..a }
}

/// The controls after one direction is held (`on`) or let go.
pub open spec fn with_input(c: Controls, input: AxisInput, on: bool) -> Controls {
    match input {
        AxisInput::ThrustUp => Controls { thrust: with_increasing(c.thrust, on), ..c },
        AxisInput::ThrustDown => Controls { thrust: with_decreasing(c.thrust, on), ..c },
        AxisInput::AileronLeft => Controls { aileron: with_increasing(c.aileron, on), ..c },
        AxisInput::AileronRight => Controls { aileron: with_decreasing(c.aileron, on), ..c },
        AxisInput::ElevatorUp => Controls { elevator: with_increasing(c.elevator, on), ..c },
        AxisInput::ElevatorDown => Controls { elevator: with_decreasing(c.elevator, on), ..c },
        AxisInput::RudderLeft => Controls { rudder: with_increasing(c.rudder, on), ..c },
        AxisInput::RudderRight => Controls { rudder: with_decreasing(c.rudder, on), ..c },
    }
}

/// The controls after one input event; events that are not channel edges change nothing.
pub open spec fn after_event(c: Controls, e: InputEvent) -> Controls {
    match e {
        InputEvent::Press(i) => with_input(c, i, true),
        InputEvent::Release(i) => with_input(c, i, false),
        _ => c,
    }
}

/// The controls after a sequence of input events, in order.
pub open spec fn after_events(c: Controls, events: Seq<InputEvent>) -> Controls
    decreases events.len(),
{
    if events.len() == 0 {
        c
    } else {
        after_event(after_events(c, events.drop_last()), events.last())
    }
}

pub open spec fn axis_advanced(a: ControlAxis, dt: int) -> ControlAxis {
    ControlAxis {
        value: advanced_value(
            a.value as int,
            a.lo as int,
            a.hi as int,
            a.increasing,
            a.decreasing,
            dt,
        ) as i64,
        ..a
    }
}

/// Every channel advanced by `dt` microseconds.
pub open spec fn advanced(c: Controls, dt: int) -> Controls {
    Controls {
        thrust: axis_advanced(c.thrust, dt),
        aileron: axis_advanced(c.aileron, dt),
        elevator: axis_advanced(c.elevator, dt),
        rudder: axis_advanced(c.rudder, dt),
    }
}

impl Controls {
    /// Every channel at zero with nothing held.
    pub open spec fn new_spec() -> Controls {
        Controls {
            thrust: ControlAxis { value: 0, lo: 0, hi: CONTROL_ONE, increasing: false, decreasing: false },
            aileron: ControlAxis {
                value: 0,
                lo: (-CONTROL_ONE) as i64,
                hi: CONTROL_ONE,
                increasing: false,
                decreasing: false,
            },
            elevator: ControlAxis {
                value: 0,
                lo: (-CONTROL_ONE) as i64,
                hi: CONTROL_ONE,
                increasing: false,
                decreasing: false,
            },
            rudder: ControlAxis {
                value: 0,
                lo: (-CONTROL_ONE) as i64,
                hi: CONTROL_ONE,
                increasing: false,
                decreasing: false,
            },
        }
    }

    /// Each channel within its range: thrust in [0, 1], the others in [-1, 1].
    pub open spec fn wf(&self) -> bool {
        &&& self.thrust.wf() && self.aileron.wf() && self.elevator.wf() && self.rudder.wf()
        &&& self.thrust.lo == 0 && self.thrust.hi == CONTROL_ONE
        &&& self.aileron.lo == -CONTROL_ONE && self.aileron.hi == CONTROL_ONE
        &&& self.elevator.lo == -CONTROL_ONE && self.elevator.hi == CONTROL_ONE
        &&& self.rudder.lo == -CONTROL_ONE && self.rudder.hi == CONTROL_ONE
    }

    pub fn new() -> (r: Controls)
        ensures
            r.wf(),
            r == Controls::new_spec(),
    {
        Controls {
            thrust: ControlAxis::unipolar(),
            aileron: ControlAxis::bipolar(),
            elevator: ControlAxis::bipolar(),
            rudder: ControlAxis::bipolar(),
        }
    }

    /// Records one input edge.
    pub fn apply(&mut self, e: InputEvent)
        ensures
            *final(self) == after_event(*old(self), e),
    {
        match e {
            InputEvent::Press(i) => self.set_input(i, true),
            InputEvent::Release(i) => self.set_input(i, false),
            _ => {},
        }
    }

    fn set_input(&mut self, input: AxisInput, on: bool)
        ensures
            *final(self) == with_input(*old(self), input, on),
    {
        match input {
            AxisInput::ThrustUp => self.thrust.increasing = on,
            AxisInput::ThrustDown => self.thrust.decreasing = on,
            AxisInput::AileronLeft => self.aileron.increasing = on,
            AxisInput::AileronRight => self.aileron.decreasing = on,
            AxisInput::ElevatorUp => self.elevator.increasing = on,
            AxisInput::ElevatorDown => self.elevator.decreasing = on,
            AxisInput::RudderLeft => self.rudder.increasing = on,
            AxisInput::RudderRight => self.rudder.decreasing = on,
        }
    }

    /// Moves every channel by `dt` microseconds of held input.
    pub fn advance(&mut self, dt: u64)
        requires
            old(self).wf(),
        ensures
            final(self).wf(),
            *final(self) == advanced(*old(self), dt as int),
    {
        self.thrust.advance(dt);
        self.aileron.advance(dt);
        self.elevator.advance(dt);
        self.rudder.advance(dt);
    }
}

/// Recording input edges never moves a value nor changes a range.
pub proof fn lemma_events_keep_values(c: Controls, events: Seq<InputEvent>)
    requires
        c.wf(),
    ensures
        after_events(c, events).wf(),
        after_events(c, events).thrust.value == c.thrust.value,
        after_events(c, events).aileron.value == c.aileron.value,
        after_events(c, events).elevator.value == c.elevator.value,
        after_events(c, events).rudder.value == c.rudder.value,
    decreases events.len(),
{
    if events.len() > 0 {
        lemma_events_keep_values(c, events.drop_last());
    }
}

/// Whatever events came and however much time passed, thrust stays in [0, 1] and the
/// other channels in [-1, 1].
pub proof fn lemma_controls_stay_in_range(c: Controls, events: Seq<InputEvent>, dt: nat)
    requires
        c.wf(),
    ensures
        advanced(after_events(c, events), dt as int).wf(),
        0 <= advanced(after_events(c, events), dt as int).thrust.value <= CONTROL_ONE,
        -CONTROL_ONE <= advanced(after_events(c, events), dt as int).aileron.value <= CONTROL_ONE,
        -CONTROL_ONE <= advanced(after_events(c, events), dt as int).elevator.value <= CONTROL_ONE,
        -CONTROL_ONE <= advanced(after_events(c, events), dt as int).rudder.value <= CONTROL_ONE,
{
    lemma_events_keep_values(c, events);
    let e = after_events(c, events);
    crate::axis::lemma_advance_stays_in_range(
        e.thrust.value as int,
        e.thrust.lo as int,
        e.thrust.hi as int,
        e.thrust.increasing,
        e.thrust.decreasing,
        dt as int,
    );
    crate::axis::lemma_advance_stays_in_range(
        e.aileron.value as int,
        e.aileron.lo as int,
        e.aileron.hi as int,
        e.aileron.increasing,
        e.aileron.decreasing,
        dt as int,
    );
    crate::axis::lemma_advance_stays_in_range(
        e.elevator.value as int,
        e.elevator.lo as int,
        e.elevator.hi as int,
        e.elevator.increasing,
        e.elevator.decreasing,
        dt as int,
    );
    crate::axis::lemma_advance_stays_in_range(
        e.rudder.value as int,
        e.rudder.lo as int,
        e.rudder.hi as int,
        e.rudder.increasing,
        e.rudder.decreasing,
        dt as int,
    );
}

/// With no direction held anywhere, advancing leaves every value unchanged.
pub proof fn lemma_idle_controls_still(c: Controls, dt: nat)
    requires
        c.wf(),
        !c.thrust.increasing && !c.thrust.decreasing,
        !c.aileron.increasing && !c.aileron.decreasing,
        !c.elevator.increasing && !c.elevator.decreasing,
        !c.rudder.increasing && !c.rudder.decreasing,
    ensures
        advanced(c, dt as int) == c,
{
}

} // verus!
