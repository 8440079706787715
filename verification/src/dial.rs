//! A rotary value control.
//!
//! The dial tracks a value inside `[min, max]` and moves it in whole steps
//! when the pointer is dragged.  A change made by the user raises a flag that
//! the controller polls once per idle tick to forward the value to the host.

use vstd::prelude::*;

use crate::{clamp_spec, LEVEL_LIMIT};

verus! {

pub struct Dial {
    /// The current value, always inside `[min, max]`.
    pub value: i64,
    /// Lower end of the range.
    pub min: i64,
    /// Upper end of the range.
    pub max: i64,
    /// How far one drag step moves the value.
    pub step: i64,
    /// Set by a drag that moved the value, cleared by `changed_value`.
    pub changed: bool,
    /// Set whenever the shown value changed and the dial must be redrawn.
    pub needs_repaint: bool,
}

impl Dial {
    /// A well-formed dial: an ordered, bounded range, a usable step width and
    /// a value inside the range.
    pub open spec fn wf(self) -> bool {
        &&& -LEVEL_LIMIT <= self.min < self.max <= LEVEL_LIMIT
        &&& 1 <= self.step <= self.max - self.min
        &&& self.min <= self.value <= self.max
    }

    /// A dial over `[min, max]` moving in steps of `step`, resting at `min`.
    pub fn new(min: i64, max: i64, step: i64) -> (d: Dial)
        requires
            -LEVEL_LIMIT <= min < max <= LEVEL_LIMIT,
            1 <= step <= max - min,
        ensures
            d.wf(),
            d.min == min,
            d.max == max,
            d.step == step,
            d.value == min,
            !d.changed,
            !d.needs_repaint,
    {
        Dial { value: min, min, max, step, changed: false, needs_repaint: false }
    }

    /// Overwrites the value with `v` clamped to the range and asks for a
    /// repaint.
    ///
    /// This is the host writing through its port, so the change flag is left
    /// alone: a host update must not be echoed back as a user change.
    pub fn set_value(&mut self, v: i64)
        requires
            old(self).wf(),
        ensures
            final(self).wf(),
            final(self).value == clamp_spec(v as int, old(self).min as int, old(self).max as int),
            final(self).min == old(self).min,
            final(self).max == old(self).max,
            final(self).step == old(self).step,
            final(self).changed == old(self).changed,
            final(self).needs_repaint,
    {
        self.value = if v < self.min {
            self.min
        } else if v > self.max {
            self.max
        } else {
            v
        };
        self.needs_repaint = true;
    }

    /// Moves the value by `steps` drag steps, clamped to the range, and
    /// raises the change flag if the value actually moved.
    pub fn adjust(&mut self, steps: i32)
        requires
            old(self).wf(),
        ensures
            final(self).wf(),
            final(self).value == clamp_spec(
                old(self).value + steps * old(self).step,
                old(self).min as int,
                old(self).max as int,
            ),
            final(self).min == old(self).min,
            final(self).max == old(self).max,
            final(self).step == old(self).step,
            final(self).changed == (old(self).changed || final(self).value != old(self).value),
            final(self).needs_repaint == (old(self).needs_repaint
                || final(self).value != old(self).value),
    {
        proof {
            let s: int = steps as int;
            let w: int = old(self).step as int;
            assert(-0x4000_0000_0000_0000 <= s * w <= 0x4000_0000_0000_0000) by (nonlinear_arith)
                requires
                    -0x8000_0000 <= s <= 0x8000_0000,
                    0 <= w <= 0x8000_0000,
            ;
        }
        let moved: i64 = (steps as i64) * self.step;
        let target: i64 = self.value + moved;
        let clamped: i64 = if target < self.min {
            self.min
        } else if target > self.max {
            self.max
        } else {
            target
        };
        if clamped != self.value {
            self.changed = true;
            self.needs_repaint = true;
        }
        self.value = clamped;
    }

    /// Whether a user change is pending; polling hands the value over once
    /// and clears the flag.
    pub fn changed_value(&mut self) -> (r: Option<i64>)
        ensures
            r == (if old(self).changed {
                Some(old(self).value)
            } else {
                None::<i64>
            }),
            !final(self).changed,
            final(self).value == old(self).value,
            final(self).min == old(self).min,
            final(self).max == old(self).max,
            final(self).step == old(self).step,
            final(self).needs_repaint == old(self).needs_repaint,
    {
        if self.changed {
            self.changed = false;
            Some(self.value)
        } else {
            None
        }
    }
}

} // verus!
