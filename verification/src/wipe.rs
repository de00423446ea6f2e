//! Wipe transitions: a timed sequence of masked shapes.
//!
//! A `WipeEvent` describes one transition: a shape, a total duration,
//! a step count and a start and end size, all sizes and times in
//! milli-units. The consumer spawns `steps` visual elements; element
//! `i` becomes visible `duration / steps * i` after the event, is
//! removed one step length later, and its size interpolates linearly
//! from `start_size` to `end_size` across the steps.

use vstd::prelude::*;

use crate::num::{mul_div, mul_div_spec, sat_add, sat_add_spec, val_ok, UNIT, VAL_MAX};
use crate::num::{
    lemma_mul_div_contracts, lemma_mul_div_exact, lemma_mul_div_identity, lemma_mul_div_monotone,
};
use crate::sample::sample_int_range;

verus! {

/// How many step elements a wipe may request.
pub const STEPS_MAX: i64 = 100_000;

/// How many wipe shapes exist.
pub const SHAPE_COUNT: i64 = 5;

/// The mask shape a wipe is drawn with.
#[derive(Clone, Copy, Debug, PartialEq, Eq, Structural)]
pub enum WipeShape {
    Circle,
    Octagon,
    Cross,
    Square,
    Hexagram,
}

/// The shape assigned to each index in `[0, SHAPE_COUNT)`; the uniform
/// shape draw picks an index and maps it through this function.
pub fn shape_from_index(i: i64) -> (r: WipeShape)
    requires
        0 <= i < SHAPE_COUNT,
    ensures
        i == 0 ==> r == WipeShape::Circle,
        i == 1 ==> r == WipeShape::Octagon,
        i == 2 ==> r == WipeShape::Cross,
        i == 3 ==> r == WipeShape::Square,
        i == 4 ==> r == WipeShape::Hexagram,
{
    if i == 0 {
        WipeShape::Circle
    } else if i == 1 {
        WipeShape::Octagon
    } else if i == 2 {
        WipeShape::Cross
    } else if i == 3 {
        WipeShape::Square
    } else {
        WipeShape::Hexagram
    }
}

/// Draws a shape uniformly from the fixed variant set. Any variant may
/// come back, so nothing more can be promised of the result.
pub fn sample_shape() -> WipeShape {
    shape_from_index(sample_int_range(0, SHAPE_COUNT))
}

/// One wipe transition, immutable once emitted.
#[derive(Clone, Copy, Debug, PartialEq, Eq, Structural)]
pub struct WipeEvent {
    pub shape: WipeShape,
    pub duration: i64,
    pub steps: i64,
    pub start_size: i64,
    pub end_size: i64,
}

impl WipeEvent {
    /// A well-formed wipe: at least one step, a non-negative duration,
    /// and all quantities inside the scalar range.
    pub open spec fn wf(&self) -> bool {
        &&& 1 <= self.steps <= STEPS_MAX
        &&& 0 <= self.duration <= VAL_MAX
        &&& val_ok(self.start_size as int)
        &&& val_ok(self.end_size as int)
    }

    /// The moment step `step` begins: `duration / steps * step`.
    pub open spec fn step_time_spec(&self, step: int) -> int {
        mul_div_spec(self.duration as int, step, self.steps as int)
    }

    /// The size of the element of step `step`: linear interpolation
    /// from `start_size` to `end_size`. A one-step wipe has a single
    /// fixed-size element, so no interpolation takes place.
    pub open spec fn step_size_spec(&self, step: int) -> int {
        if self.steps == 1 {
            self.start_size as int
        } else {
            self.start_size + mul_div_spec(
                self.end_size - self.start_size,
                step,
                self.steps - 1,
            )
        }
    }

    /// Calculates the start time of a step.
    pub fn step_time(&self, step: i64) -> (r: i64)
        requires
            self.wf(),
            0 <= step <= self.steps,
        ensures
            r == self.step_time_spec(step as int),
            0 <= r <= self.duration,
    {
        proof {
            lemma_mul_div_contracts(self.duration as int, step as int, self.steps as int);
            lemma_mul_div_monotone(self.duration as int, step as int, self.steps as int,
                self.steps as int);
            lemma_mul_div_identity(self.duration as int, self.steps as int);
        }
        mul_div(self.duration, step, self.steps)
    }

    /// Calculates the size of a step's element.
    pub fn step_size(&self, step: i64) -> (r: i64)
        requires
            self.wf(),
            0 <= step < self.steps,
        ensures
            r == self.step_size_spec(step as int),
            val_ok(r as int),
    {
        if self.steps == 1 {
            self.start_size
        } else {
            proof {
                lemma_mul_div_contracts(
                    self.end_size - self.start_size,
                    step as int,
                    self.steps - 1,
                );
            }
            self.start_size + mul_div(self.end_size - self.start_size, step, self.steps - 1)
        }
    }
}

impl Default for WipeEvent {
    /// A one-second, five-step circle wipe growing from one to ten units.
    fn default() -> (r: Self)
        ensures
            r == (WipeEvent {
                shape: WipeShape::Circle,
                duration: UNIT,
                steps: 5,
                start_size: UNIT,
                end_size: 10_000,
            }),
            r.wf(),
    {
        WipeEvent {
            shape: WipeShape::Circle,
            duration: UNIT,
            steps: 5,
            start_size: UNIT,
            end_size: 10_000,
        }
    }
}

/// A wipe starts at time zero and ends, with its last step, exactly at
/// its duration.
pub proof fn lemma_step_time_endpoints(e: WipeEvent)
    requires
        e.wf(),
    ensures
        e.step_time_spec(0) == 0,
        e.step_time_spec(e.steps as int) == e.duration,
{
    assert(e.duration as int * 0 == 0) by (nonlinear_arith);
    lemma_mul_div_identity(e.duration as int, e.steps as int);
}

/// The interpolated sizes hit the configured endpoints: the first step
/// has the start size and the last step the end size.
pub proof fn lemma_step_size_endpoints(e: WipeEvent)
    requires
        e.wf(),
        e.steps >= 2,
    ensures
        e.step_size_spec(0) == e.start_size,
        e.step_size_spec(e.steps - 1) == e.end_size,
{
    let diff = e.end_size - e.start_size;
    assert(diff * 0 == 0) by (nonlinear_arith);
    lemma_mul_div_identity(diff, e.steps - 1);
}

/// When the size difference divides evenly over the steps, the element
/// sizes are exactly linear in the step index, with slope
/// `(end_size - start_size) / (steps - 1)`.
pub proof fn lemma_step_size_linear(e: WipeEvent, step: int)
    requires
        e.wf(),
        e.steps >= 2,
        (e.end_size - e.start_size) % (e.steps - 1) == 0,
        0 <= step < e.steps,
    ensures
        e.step_size_spec(step) == e.start_size + ((e.end_size - e.start_size) / (e.steps - 1))
            * step,
{
    lemma_mul_div_exact(e.end_size - e.start_size, step, e.steps - 1);
}

/// Where a wipe element stands in its life.
#[derive(Clone, Copy, Debug, PartialEq, Eq, Structural)]
pub enum WipePhase {
    /// Not yet visible: its step has not begun.
    Pending,
    /// Visible: its step has begun and not yet ended.
    Visible,
    /// Its step has ended; the element is to be removed.
    Done,
}

/// One spawned element of a wipe: the triggering event, the element's
/// step index, and its age since the event fired.
#[derive(Clone, Copy, Debug, PartialEq, Eq, Structural)]
pub struct WipeElement {
    pub trigger: WipeEvent,
    pub step: i64,
    pub age: i64,
}

impl WipeElement {
    /// A well-formed element: a well-formed trigger, a step index the
    /// trigger owns, and a non-negative bounded age.
    pub open spec fn wf(&self) -> bool {
        &&& self.trigger.wf()
        &&& 0 <= self.step < self.trigger.steps
        &&& 0 <= self.age <= VAL_MAX
    }

    /// A fresh element of a wipe, at age zero.
    pub fn spawn(trigger: WipeEvent, step: i64) -> (r: Self)
        requires
            trigger.wf(),
            0 <= step < trigger.steps,
        ensures
            r == (WipeElement { trigger, step, age: 0 }),
            r.wf(),
    {
        WipeElement { trigger, step, age: 0 }
    }

    /// Ages the element by one frame. The age saturates at the scalar
    /// bound, far beyond any wipe's duration.
    pub fn advance(&mut self, dt: i64)
        requires
            old(self).wf(),
            0 <= dt <= VAL_MAX,
        ensures
            final(self).age == sat_add_spec(old(self).age as int, dt as int),
            final(self).trigger == old(self).trigger,
            final(self).step == old(self).step,
            final(self).wf(),
    {
        self.age = sat_add(self.age, dt);
    }

    /// Where the element stands: pending until its step's start time
    /// has strictly passed, visible until its step's end time has
    /// strictly passed, done afterwards.
    pub fn phase(&self) -> (r: WipePhase)
        requires
            self.wf(),
        ensures
            (r == WipePhase::Pending) <==> self.age <= self.trigger.step_time_spec(
                self.step as int),
            (r == WipePhase::Visible) <==> (self.trigger.step_time_spec(self.step as int)
                < self.age <= self.trigger.step_time_spec(self.step + 1)),
            (r == WipePhase::Done) <==> self.age > self.trigger.step_time_spec(self.step + 1),
    {
        let start = self.trigger.step_time(self.step);
        let end = self.trigger.step_time(self.step + 1);
        proof {
            lemma_mul_div_monotone(self.trigger.duration as int, self.step as int,
                self.step + 1, self.trigger.steps as int);
        }
        if self.age <= start {
            WipePhase::Pending
        } else if self.age <= end {
            WipePhase::Visible
        } else {
            WipePhase::Done
        }
    }
}

/// The elements a wipe spawns: one per step, at age zero, in step order.
pub fn spawn_wipe_elements(trigger: WipeEvent) -> (r: Vec<WipeElement>)
    requires
        trigger.wf(),
    ensures
        r@.len() == trigger.steps,
        forall|i: int|
            0 <= i < trigger.steps ==> r@[i] == (WipeElement {
                trigger,
                step: i as i64,
                age: 0,
            }),
{
    let n: usize = trigger.steps as usize;
    let mut out: Vec<WipeElement> = Vec::new();
    let mut i: usize = 0;
    while i < n
        invariant
            n == trigger.steps,
            trigger.wf(),
            i <= n,
            out@.len() == i,
            forall|j: int|
                0 <= j < i ==> out@[j] == (WipeElement { trigger, step: j as i64, age: 0 }),
        decreases n - i,
    {
        out.push(WipeElement { trigger, step: i as i64, age: 0 });
        i += 1;
    }
    out
}

} // verus!
