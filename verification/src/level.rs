//! The volume indicator comparing a day's count to a recent baseline.

use vstd::prelude::*;

verus! {

/// Sum of a sequence of day counts.
pub open spec fn sum_counts(s: Seq<usize>) -> int
    decreases s.len(),
{
    if s.len() == 0 {
        0
    } else {
        sum_counts(s.drop_last()) + s.last()
    }
}

/// How many entries of a sequence of day counts are non-zero.
pub open spec fn nonzero_count(s: Seq<usize>) -> int
    decreases s.len(),
{
    if s.len() == 0 {
        0
    } else {
        nonzero_count(s.drop_last()) + if s.last() == 0 {
            0int
        } else {
            1int
        }
    }
}

/// A volume indicator for one viewed day.
///
/// `middle_num / middle_den` is the baseline "middle": the exact mean of
/// the non-zero day counts over a recent trailing window, kept as a
/// rational so no precision is lost.  `count` is the viewed day's count
/// and `target` the configured goal.  All derived quantities are rounded
/// to the nearest integer only at the accessors.
#[derive(Clone, Copy, Debug)]
pub struct Level {
    pub count: usize,
    pub middle_num: usize,
    pub middle_den: usize,
    pub target: usize,
}

impl Level {
    /// The denominator is a positive number of days, far below the range
    /// where the accessors' 128-bit intermediates could overflow.
    pub open spec fn wf(self) -> bool {
        1 <= self.middle_den <= 0xFFFF_FFFFusize
    }

    /// The smoothed goal shown to the user: the configured target blended
    /// half-way towards the middle, floored at 8/10 of the middle, and
    /// rounded to the nearest integer (saturating at `usize::MAX`).
    ///
    /// Both candidates are put over the common denominator
    /// `10 * middle_den`: the blend `(middle + target) / 2` becomes
    /// `5 * (middle_num + target * middle_den)` and the floor `middle * 8/10`
    /// becomes `8 * middle_num`.
    pub open spec fn spec_target(self) -> int {
        let blend = 5 * (self.middle_num + self.target * self.middle_den);
        let floor = 8 * self.middle_num;
        let num = if blend >= floor {
            blend
        } else {
            floor
        };
        let den = 10 * self.middle_den;
        let rounded = (2 * num + den) / (2 * den);
        if rounded <= usize::MAX {
            rounded
        } else {
            usize::MAX as int
        }
    }

    /// The viewed day's count as a percentage of the middle, rounded to
    /// the nearest integer and saturating at `usize::MAX`; 0 when there is
    /// no data at all (a zero middle), so the indicator is total.
    pub open spec fn spec_percentage(self) -> int {
        if self.middle_num == 0 {
            0
        } else {
            let num = 100 * (self.count * self.middle_den);
            let den = self.middle_num as int;
            let rounded = (2 * num + den) / (2 * den);
            if rounded <= usize::MAX {
                rounded
            } else {
                usize::MAX as int
            }
        }
    }

    /// Whether the configured target lies above the middle.
    pub open spec fn spec_is_positive(self) -> bool {
        self.target * self.middle_den > self.middle_num
    }

    pub fn new(count: usize, middle_num: usize, middle_den: usize, target: usize) -> (r: Self)
        requires
            1 <= middle_den <= 0xFFFF_FFFFusize,
        ensures
            r == (Level { count, middle_num, middle_den, target }),
            r.wf(),
    {
        Self { count, middle_num, middle_den, target }
    }

    pub fn count(&self) -> (c: usize)
        ensures
            c == self.count,
    {
        self.count
    }

    /// The smoothed goal; see [`Level::spec_target`] for the exact formula.
    pub fn target(&self) -> (t: usize)
        requires
            self.wf(),
        ensures
            t == self.spec_target(),
    {
        let num128: u128 = self.middle_num as u128;
        let den128: u128 = self.middle_den as u128;
        let tgt128: u128 = self.target as u128;
        assert(tgt128 * den128 <= 0xFFFF_FFFF_FFFF_FFFFu128 * 0xFFFF_FFFFu128) by (nonlinear_arith)
            requires
                tgt128 <= 0xFFFF_FFFF_FFFF_FFFFu128,
                den128 <= 0xFFFF_FFFFu128,
        ;
        let blend: u128 = 5 * (num128 + tgt128 * den128);
        let floor: u128 = 8 * num128;
        let num: u128 = if blend >= floor {
            blend
        } else {
            floor
        };
        let den: u128 = 10 * den128;
        let rounded: u128 = (2 * num + den) / (2 * den);
        if rounded <= usize::MAX as u128 {
            rounded as usize
        } else {
            usize::MAX
        }
    }

    /// The percentage of the middle reached by the viewed day's count; see
    /// [`Level::spec_percentage`] for the exact formula.
    pub fn percentage(&self) -> (p: usize)
        requires
            self.wf(),
        ensures
            p == self.spec_percentage(),
    {
        if self.middle_num == 0 {
            return 0;
        }
        let cnt128: u128 = self.count as u128;
        let den128: u128 = self.middle_den as u128;
        assert(cnt128 * den128 <= 0xFFFF_FFFF_FFFF_FFFFu128 * 0xFFFF_FFFFu128) by (nonlinear_arith)
            requires
                cnt128 <= 0xFFFF_FFFF_FFFF_FFFFu128,
                den128 <= 0xFFFF_FFFFu128,
        ;
        let prod: u128 = cnt128 * den128;
        let num: u128 = 100 * prod;
        let den: u128 = self.middle_num as u128;
        let rounded: u128 = (2 * num + den) / (2 * den);
        if rounded <= usize::MAX as u128 {
            rounded as usize
        } else {
            usize::MAX
        }
    }

    pub fn is_positive(&self) -> (b: bool)
        ensures
            b == self.spec_is_positive(),
    {
        let lhs: u128 = self.target as u128;
        let rhs: u128 = self.middle_den as u128;
        assert(lhs * rhs <= 0xFFFF_FFFF_FFFF_FFFFu128 * 0xFFFF_FFFF_FFFF_FFFFu128)
            by (nonlinear_arith)
            requires
                lhs <= 0xFFFF_FFFF_FFFF_FFFFu128,
                rhs <= 0xFFFF_FFFF_FFFF_FFFFu128,
        ;
        lhs * rhs > self.middle_num as u128
    }

    /// The same indicator for another count: baseline and target kept.
    pub fn for_count(&self, count: usize) -> (r: Self)
        ensures
            r == (Level { count, ..*self }),
    {
        Self { count, ..*self }
    }

    /// Builds the indicator for a day's count from the raw counts of the
    /// recent trailing window.
    ///
    /// The middle is the mean of the non-zero recent counts; when every
    /// recent day is zero it falls back to the viewed day's own count, so
    /// the indicator never rests on an empty baseline while any data is
    /// present.
    pub fn for_counts(count: usize, recent: &Vec<usize>, target: usize) -> (r: Self)
        requires
            sum_counts(recent@) <= usize::MAX,
            recent@.len() <= 0xFFFF_FFFFusize,
        ensures
            r == spec_level_for_counts(count, recent@, target),
            r.wf(),
    {
        let mut sum: usize = 0;
        let mut nonzero: usize = 0;
        let mut i: usize = 0;
        while i < recent.len()
            invariant
                i <= recent@.len(),
                recent@.len() <= 0xFFFF_FFFFusize,
                sum == sum_counts(recent@.take(i as int)),
                nonzero == nonzero_count(recent@.take(i as int)),
                nonzero <= i,
                sum_counts(recent@) <= usize::MAX,
            decreases recent@.len() - i,
        {
            proof {
                lemma_sum_counts_take_step(recent@, i as int);
                lemma_sum_counts_take_bound(recent@, i + 1);
            }
            sum = sum + recent[i];
            if recent[i] != 0 {
                nonzero = nonzero + 1;
            }
            i = i + 1;
        }
        proof {
            assert(recent@.take(recent@.len() as int) =~= recent@);
        }
        if nonzero == 0 {
            Self::new(count, count, 1, target)
        } else {
            Self::new(count, sum, nonzero, target)
        }
    }
}

/// The indicator that [`Level::for_counts`] builds: mean of the non-zero
/// recent counts as an exact rational, with the viewed day's own count as
/// the fallback baseline when every recent day is zero.
pub open spec fn spec_level_for_counts(count: usize, recent: Seq<usize>, target: usize) -> Level {
    if nonzero_count(recent) == 0 {
        Level { count, middle_num: count, middle_den: 1, target }
    } else {
        Level {
            count,
            middle_num: sum_counts(recent) as usize,
            middle_den: nonzero_count(recent) as usize,
            target,
        }
    }
}

/// Taking one more element adds exactly that element to the partial sum
/// and, when it is non-zero, one to the non-zero tally.
proof fn lemma_sum_counts_take_step(s: Seq<usize>, i: int)
    requires
        0 <= i < s.len(),
    ensures
        sum_counts(s.take(i + 1)) == sum_counts(s.take(i)) + s[i],
        nonzero_count(s.take(i + 1)) == nonzero_count(s.take(i)) + if s[i] == 0 {
            0int
        } else {
            1int
        },
{
    assert(s.take(i + 1).drop_last() =~= s.take(i));
    assert(s.take(i + 1).last() == s[i]);
}

/// Every partial sum of counts is at most the whole sum, and no partial
/// sum is negative.
proof fn lemma_sum_counts_take_bound(s: Seq<usize>, i: int)
    requires
        0 <= i <= s.len(),
    ensures
        0 <= sum_counts(s.take(i)) <= sum_counts(s),
    decreases s.len() - i,
{
    lemma_sum_counts_nonneg(s.take(i));
    if i == s.len() {
        assert(s.take(i) =~= s);
    } else {
        lemma_sum_counts_take_step(s, i);
        lemma_sum_counts_take_bound(s, i + 1);
    }
}

proof fn lemma_sum_counts_nonneg(s: Seq<usize>)
    ensures
        0 <= sum_counts(s),
    decreases s.len(),
{
    if s.len() > 0 {
        lemma_sum_counts_nonneg(s.drop_last());
    }
}

/// With every recent day count zero and a non-zero count for the viewed
/// day, the baseline falls back to the viewed day's own count and the
/// indicator's percentage is a well-defined 100, not a division by zero.
pub proof fn lemma_percentage_without_recent_data(count: usize, recent: Seq<usize>, target: usize)
    requires
        forall|i: int| 0 <= i < recent.len() ==> recent[i] == 0,
        count > 0,
    ensures
        spec_level_for_counts(count, recent, target).wf(),
        spec_level_for_counts(count, recent, target).spec_percentage() == 100,
{
    lemma_nonzero_count_all_zero(recent);
    let l = spec_level_for_counts(count, recent, target);
    assert(l.middle_num == count && l.middle_den == 1);
    assert((2 * (100 * count * 1) + count) / (2 * count) == 100) by (nonlinear_arith)
        requires
            count > 0,
    ;
}

proof fn lemma_nonzero_count_all_zero(s: Seq<usize>)
    requires
        forall|i: int| 0 <= i < s.len() ==> s[i] == 0,
    ensures
        nonzero_count(s) == 0,
    decreases s.len(),
{
    if s.len() > 0 {
        lemma_nonzero_count_all_zero(s.drop_last());
    }
}

} // verus!
