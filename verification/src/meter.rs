//! A segmented level meter.
//!
//! The meter holds a level clamped to its display range and splits the bar
//! into colored zones for drawing: red above 0 dB, yellow above -18 dB and
//! green below.  `bar_segments` hands the drawing shell the exact value
//! intervals to fill, bottom of the bar last, so that the shell only scales
//! them to pixels.

use vstd::prelude::*;

use crate::{clamp_spec, LEVEL_LIMIT};

verus! {

/// Levels strictly above this are drawn red (0 dB).
pub const RED_LIMIT: i64 = 0;
/// Levels strictly above this, up to the red zone, are drawn yellow (-18 dB).
pub const YELLOW_LIMIT: i64 = -18_000;
/// Width of the drawn bar in pixels; the bar is twice as tall.
pub const BAR_WIDTH: u64 = 25;

#[derive(Clone, Copy, Debug, PartialEq, Eq, Structural)]
pub enum Zone {
    Green,
    Yellow,
    Red,
}

/// One stretch of the bar, covering the levels in `(lo, hi]`.
#[derive(Clone, Copy, Debug, PartialEq, Eq, Structural)]
pub struct BarSegment {
    pub lo: i64,
    pub hi: i64,
    pub zone: Zone,
}

/// The zone a single level belongs to.
pub open spec fn zone_of(level: int) -> Zone {
    if level > RED_LIMIT {
        Zone::Red
    } else if level > YELLOW_LIMIT {
        Zone::Yellow
    } else {
        Zone::Green
    }
}

/// The segments drawn for a level `value` over a bar starting at `min_value`,
/// in drawing order: red first, then yellow, then green.  Each zone is drawn
/// from its lower limit up to whatever of the value is left above it, exactly
/// as the bar is painted.
pub open spec fn spec_bar_segments(min_value: i64, value: i64) -> Seq<BarSegment> {
    let below_red: i64 = if value > RED_LIMIT {
        RED_LIMIT
    } else {
        value
    };
    let below_yellow: i64 = if below_red > YELLOW_LIMIT {
        YELLOW_LIMIT
    } else {
        below_red
    };
    let red: Seq<BarSegment> = if value > RED_LIMIT {
        seq![BarSegment { lo: RED_LIMIT, hi: value, zone: Zone::Red }]
    } else {
        Seq::empty()
    };
    let yellow: Seq<BarSegment> = if below_red > YELLOW_LIMIT {
        seq![BarSegment { lo: YELLOW_LIMIT, hi: below_red, zone: Zone::Yellow }]
    } else {
        Seq::empty()
    };
    let green: Seq<BarSegment> = if below_yellow > min_value {
        seq![BarSegment { lo: min_value, hi: below_yellow, zone: Zone::Green }]
    } else {
        Seq::empty()
    };
    red + yellow + green
}

pub struct Meter {
    /// The displayed level, always inside `[min_value, max_value]`.
    pub value: i64,
    /// Bottom of the display range.
    pub min_value: i64,
    /// Top of the display range.
    pub max_value: i64,
    /// Set whenever the level changed and the bar must be redrawn.
    pub needs_repaint: bool,
}

impl Meter {
    /// A well-formed meter: an ordered, bounded range holding the value.
    pub open spec fn wf(self) -> bool {
        &&& -LEVEL_LIMIT <= self.min_value < self.max_value <= LEVEL_LIMIT
        &&& self.min_value <= self.value <= self.max_value
    }

    /// Overwrites the level with `v` clamped to the display range and asks
    /// for a repaint.  The stored level never leaves `[min_value, max_value]`.
    pub fn set_value(&mut self, v: i64)
        requires
            old(self).wf(),
        ensures
            final(self).wf(),
            final(self).value == clamp_spec(
                v as int,
                old(self).min_value as int,
                old(self).max_value as int,
            ),
            old(self).min_value <= final(self).value <= old(self).max_value,
            final(self).min_value == old(self).min_value,
            final(self).max_value == old(self).max_value,
            final(self).needs_repaint,
    {
        self.value = if v < self.min_value {
            self.min_value
        } else if v > self.max_value {
            self.max_value
        } else {
            v
        };
        self.needs_repaint = true;
    }

    /// The smallest size the bar is drawn at, in pixels: one bar width wide
    /// and two bar widths tall.
    pub fn min_size(&self) -> (s: (u64, u64))
        ensures
            s.0 == BAR_WIDTH,
            s.1 == 2 * BAR_WIDTH,
    {
        (BAR_WIDTH, 2 * BAR_WIDTH)
    }

    /// The zone segments to fill for the current level, in drawing order.
    pub fn bar_segments(&self) -> (segs: Vec<BarSegment>)
        requires
            self.wf(),
        ensures
            segs@ == spec_bar_segments(self.min_value, self.value),
    {
        let mut segs: Vec<BarSegment> = Vec::new();
        let below_red: i64 = if self.value > RED_LIMIT {
            segs.push(BarSegment { lo: RED_LIMIT, hi: self.value, zone: Zone::Red });
            RED_LIMIT
        } else {
            self.value
        };
        let below_yellow: i64 = if below_red > YELLOW_LIMIT {
            segs.push(BarSegment { lo: YELLOW_LIMIT, hi: below_red, zone: Zone::Yellow });
            YELLOW_LIMIT
        } else {
            below_red
        };
        if below_yellow > self.min_value {
            segs.push(BarSegment { lo: self.min_value, hi: below_yellow, zone: Zone::Green });
        }
        proof {
            assert(segs@ =~= spec_bar_segments(self.min_value, self.value));
        }
        segs
    }
}

/// How the bar is segmented, stated of the whole: for a meter whose range
/// reaches below the yellow limit, the segments for a level `value` tile the
/// interval `(min_value, value]` top down without gap or overlap, and every
/// level inside a segment is colored with its own zone.
pub proof fn lemma_bar_segments_cover(min_value: i64, value: i64)
    requires
        min_value <= YELLOW_LIMIT,
        min_value <= value,
    ensures
        ({
            let segs = spec_bar_segments(min_value, value);
            &&& forall|i: int|
                0 <= i < segs.len() ==> min_value <= #[trigger] segs[i].lo < segs[i].hi <= value
            &&& forall|i: int|
                0 < i < segs.len() ==> #[trigger] segs[i].hi == segs[i - 1].lo
            &&& (min_value < value ==> segs.len() > 0 && segs[0].hi == value
                && segs[segs.len() - 1].lo == min_value)
            &&& (min_value == value ==> segs.len() == 0)
            &&& forall|i: int, level: int| #![trigger segs[i].zone, zone_of(level)]
                0 <= i < segs.len() && segs[i].lo < level <= segs[i].hi
                    ==> zone_of(level) == segs[i].zone
        }),
{
    let segs = spec_bar_segments(min_value, value);
    assert forall|i: int, level: int| #![trigger segs[i].zone, zone_of(level)]
        0 <= i < segs.len() && segs[i].lo < level <= segs[i].hi
            implies zone_of(level) == segs[i].zone by {
        assert(segs[i].zone == Zone::Red ==> segs[i].lo == RED_LIMIT);
        assert(segs[i].zone == Zone::Yellow ==> segs[i].lo == YELLOW_LIMIT
            && segs[i].hi <= RED_LIMIT);
        assert(segs[i].zone == Zone::Green ==> segs[i].hi <= YELLOW_LIMIT);
    }
}

/// Builds meters sharing one display range, as the widget toolkit asks for
/// them.
pub struct Factory {
    pub min: i64,
    pub max: i64,
}

impl Factory {
    /// A meter over the factory's range, resting at the bottom of the scale.
    pub fn make_widget(&self) -> (m: Meter)
        requires
            -LEVEL_LIMIT <= self.min < self.max <= LEVEL_LIMIT,
        ensures
            m.wf(),
            m.min_value == self.min,
            m.max_value == self.max,
            m.value == self.min,
            !m.needs_repaint,
    {
        Meter {
            value: self.min,
            min_value: self.min,
            max_value: self.max,
            needs_repaint: false,
        }
    }
}

/// A factory for meters displaying `[min, max]`.
pub fn new(min: i64, max: i64) -> (f: Factory)
    requires
        -LEVEL_LIMIT <= min < max <= LEVEL_LIMIT,
    ensures
        f.min == min,
        f.max == max,
{
    Factory { min, max }
}

} // verus!
