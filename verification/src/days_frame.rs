//! A sliding window of calendar days with a bounded viewing cursor.

use vstd::prelude::*;
use crate::date::Day;

verus! {

/// A window `[start, end]` of calendar days and a cursor `cur` inside it.
///
/// The cursor can move back without a lower bound and forward only up to
/// "today"; when it drifts more than one day away from the window's
/// midpoint, the window slides by one day in the same direction, keeping
/// the cursor roughly centred without rebuilding the window.
#[derive(Clone, Copy, Debug, PartialEq, Eq, Structural)]
pub struct DaysFrame {
    pub cur: Day,
    pub start: Day,
    pub end: Day,
}

impl DaysFrame {
    /// The cursor stays inside the window and the window spans at least
    /// three days, which is what keeps the cursor inside it across moves.
    pub open spec fn wf(self) -> bool {
        &&& self.start <= self.cur <= self.end
        &&& self.end - self.start >= 2
    }

    /// The window's midpoint: the day `(end - start) / 2` days before `end`.
    pub open spec fn spec_middle(self) -> int {
        self.end - (self.end - self.start) / 2
    }

    /// Builds the frame ending at `end` and covering `range` days, with
    /// the cursor on `end`.
    pub fn new(end: Day, range: i32) -> (r: Self)
        requires
            3 <= range,
            end - range + 1 >= i32::MIN,
        ensures
            r == (DaysFrame { cur: end, start: (end - range + 1) as Day, end }),
            r.wf(),
    {
        let start: i32 = end - (range - 1);
        Self { cur: end, start, end }
    }

    fn middle(&self) -> (m: i64)
        requires
            self.start <= self.end,
        ensures
            m == self.spec_middle(),
    {
        let span: i64 = self.end as i64 - self.start as i64;
        self.end as i64 - span / 2
    }

    /// Moves the cursor one day back, unconditionally; the window slides
    /// back one day only when the cursor has fallen more than one day
    /// before the midpoint.
    pub fn prev(&mut self)
        requires
            old(self).wf(),
            old(self).start > i32::MIN,
        ensures
            final(self).wf(),
            final(self).cur == old(self).cur - 1,
            final(self).end - final(self).start == old(self).end - old(self).start,
            if old(self).cur - 1 < old(self).spec_middle() - 1 {
                final(self).start == old(self).start - 1 && final(self).end == old(self).end - 1
            } else {
                final(self).start == old(self).start && final(self).end == old(self).end
            },
    {
        self.cur = self.cur - 1;
        let mid: i64 = self.middle();
        if (self.cur as i64) - mid < -1 {
            self.start = self.start - 1;
            self.end = self.end - 1;
        }
    }

    /// Moves the cursor one day forward, clamped to `today`; the window
    /// slides forward one day only when the cursor actually moved past
    /// one day after the midpoint and the window's end is still before
    /// `today`, so the window never reaches past today.
    pub fn next(&mut self, today: Day)
        requires
            old(self).wf(),
            old(self).cur <= today,
        ensures
            final(self).wf(),
            final(self).cur == if old(self).cur + 1 <= today {
                old(self).cur + 1
            } else {
                today as int
            },
            final(self).cur <= today,
            final(self).end - final(self).start == old(self).end - old(self).start,
            if final(self).cur - old(self).spec_middle() > 1 && old(self).end < today {
                final(self).start == old(self).start + 1 && final(self).end == old(self).end + 1
            } else {
                final(self).start == old(self).start && final(self).end == old(self).end
            },
            old(self).end <= today ==> final(self).end <= today,
    {
        self.cur = if self.cur < today {
            self.cur + 1
        } else {
            today
        };
        let mid: i64 = self.middle();
        if (self.cur as i64) - mid > 1 && self.end < today {
            self.start = self.start + 1;
            self.end = self.end + 1;
        }
    }
}

} // verus!
