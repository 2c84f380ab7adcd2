use vstd::prelude::*;

verus! {

/// Value of one full unit of deflection or thrust, in millionths.
pub const CONTROL_ONE: i64 = 1_000_000;

/// One rate-limited control channel.
///
/// `value` is in millionths of a unit and moves at one unit per second, so that one
/// microsecond of elapsed time moves it by exactly one.
#[derive(Clone, Copy, Debug, PartialEq, Eq, Structural)]
pub struct ControlAxis {
    pub value: i64,
    pub lo: i64,
    pub hi: i64,
    pub increasing: bool,
    pub decreasing: bool,
}

pub open spec fn min_int(a: int, b: int) -> int {
    if a <= b { a } else { b }
}

pub open spec fn max_int(a: int, b: int) -> int {
    if a >= b { a } else { b }
}

/// The value after `dt` microseconds: the increase step, clamped, then the
/// decrease step, clamped; nothing moves when no time has passed.
pub open spec fn advanced_value(
    v: int,
    lo: int,
    hi: int,
    increasing: bool,
    decreasing: bool,
    dt: int,
) -> int {
    if dt == 0 {
        v
    } else {
        let raised = if increasing { min_int(v + dt, hi) } else { v };
        if decreasing { max_int(raised - dt, lo) } else { raised }
    }
}

impl ControlAxis {
    pub open spec fn wf(&self) -> bool {
        &&& self.lo <= self.value <= self.hi
        &&& -CONTROL_ONE <= self.lo
        &&& self.hi <= CONTROL_ONE
    }

    /// Thrust: from zero to one unit.
    pub fn unipolar() -> (r: ControlAxis)
        ensures
            r.wf(),
            r.value == 0 && r.lo == 0 && r.hi == CONTROL_ONE,
            !r.increasing && !r.decreasing,
    {
        ControlAxis { value: 0, lo: 0, hi: CONTROL_ONE, increasing: false, decreasing: false }
    }

    /// Control surfaces: from minus one to one unit.
    pub fn bipolar() -> (r: ControlAxis)
        ensures
            r.wf(),
            r.value == 0 && r.lo == -CONTROL_ONE && r.hi == CONTROL_ONE,
            !r.increasing && !r.decreasing,
    {
        ControlAxis {
            value: 0,
            lo: -CONTROL_ONE,
            hi: CONTROL_ONE,
            increasing: false,
            decreasing: false,
        }
    }

    /// Moves the value by `dt` microseconds of held input.
    pub fn advance(&mut self, dt: u64)
        requires
            old(self).wf(),
        ensures
            final(self).wf(),
            final(self).value == advanced_value(
                old(self).value as int,
                old(self).lo as int,
                old(self).hi as int,
                old(self).increasing,
                old(self).decreasing,
                dt as int,
            ),
            final(self).lo == old(self).lo,
            final(self).hi == old(self).hi,
            final(self).increasing == old(self).increasing,
            final(self).decreasing == old(self).decreasing,
    {
        if dt == 0 {
            return ;
        }
        if self.increasing {
            // room is at most two units, so it compares with any `dt` without overflow
            let room = (self.hi - self.value) as u64;
            if dt >= room {
                self.value = self.hi;
            } else {
                self.value = self.value + dt as i64;
            }
        }
        if self.decreasing {
            let room = (self.value - self.lo) as u64;
            if dt >= room {
                self.value = self.lo;
            } else {
                self.value = self.value - dt as i64;
            }
        }
    }
}

/// Whatever was held and however much time passed, the value stays inside its range.
pub proof fn lemma_advance_stays_in_range(
    v: int,
    lo: int,
    hi: int,
    increasing: bool,
    decreasing: bool,
    dt: int,
)
    requires
        lo <= v <= hi,
        dt >= 0,
    ensures
        lo <= advanced_value(v, lo, hi, increasing, decreasing, dt) <= hi,
{
}

/// With neither direction held, advancing leaves the value where it was, however often.
pub proof fn lemma_idle_is_still(v: int, lo: int, hi: int, dt: int)
    ensures
        advanced_value(v, lo, hi, false, false, dt) == v,
{
}

/// Holding one direction away from the bounds moves the value by exactly the elapsed
/// time; holding both cancels out; in every case it moves by at most the elapsed time.
pub proof fn lemma_rate_bound(v: int, lo: int, hi: int, increasing: bool, decreasing: bool, dt: int)
    requires
        lo <= v <= hi,
        dt >= 0,
    ensures
        increasing && !decreasing && v + dt <= hi ==> advanced_value(
            v,
            lo,
            hi,
            increasing,
            decreasing,
            dt,
        ) == v + dt,
        !increasing && decreasing && v - dt >= lo ==> advanced_value(
            v,
            lo,
            hi,
            increasing,
            decreasing,
            dt,
        ) == v - dt,
        increasing && decreasing && v + dt <= hi && v - dt >= lo ==> advanced_value(
            v,
            lo,
            hi,
            increasing,
            decreasing,
            dt,
        ) == v,
        v - dt <= advanced_value(v, lo, hi, increasing, decreasing, dt) <= v + dt,
{
}

} // verus!
