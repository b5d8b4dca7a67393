//! One tab's derived state, resolution pipeline and undo/redo journal.
//!
//! A tab owns the derived [`State`] of one record stream, a sliding
//! [`DaysFrame`] over calendar days, and two stacks of undoable
//! [`Action`]s.  The record store itself is a collaborator outside this
//! crate: every function here takes the store's answers (records and
//! per-day counts) as plain values, so the whole derivation is verified.
//! The caller performs the store I/O first and commits the matching state
//! transition only on success, which keeps the stacks intact across
//! store failures.

use vstd::prelude::*;
use crate::date::{month_of, month_of_day, Day, Record, MAX_DAY, MIN_DAY};
use crate::days_frame::DaysFrame;
use crate::level::{spec_level_for_counts, sum_counts, Level};
use crate::selectable_list::SelectableList;

verus! {

/// How many calendar days the sliding day window spans.
pub const FRAME_DAYS: i32 = 10;

/// How many days before the viewed date feed the level's baseline.
pub const LEVEL_BASELINE_DAYS: i32 = 7;

/// How many days before today feed the trailing-year month aggregate.
pub const MONTH_WINDOW_DAYS: i32 = 365;

/// One day of the sliding window together with its record count.
#[derive(Clone, Copy, Debug, PartialEq, Eq, Structural)]
pub struct DayCount {
    pub day: Day,
    pub count: usize,
}

/// An undoable unit: adding or deleting one literal record.  The payload
/// is the exact value added or removed, so replaying the inverse restores
/// the very same timestamp.
#[derive(Clone, Copy, Debug, PartialEq, Eq, Structural)]
pub enum Action {
    Add(Record),
    Delete(Record),
}

impl Action {
    pub open spec fn spec_record(self) -> Record {
        match self {
            Action::Add(r) => r,
            Action::Delete(r) => r,
        }
    }

    /// The logical inverse: same record, opposite tag.
    pub open spec fn spec_inverse(self) -> Action {
        match self {
            Action::Add(r) => Action::Delete(r),
            Action::Delete(r) => Action::Add(r),
        }
    }

    pub open spec fn wf(self) -> bool {
        self.spec_record().wf()
    }

    pub fn record(&self) -> (r: Record)
        ensures
            r == self.spec_record(),
    {
        match *self {
            Action::Add(r) => r,
            Action::Delete(r) => r,
        }
    }

    pub fn inverse(self) -> (r: Action)
        ensures
            r == self.spec_inverse(),
    {
        match self {
            Action::Add(r) => Action::Delete(r),
            Action::Delete(r) => Action::Add(r),
        }
    }
}

/// The derived snapshot of one tab.
///
/// `list` holds the viewed day's records with a reversed cursor, so the
/// logical "next" selection moves towards the most recent record.
/// `recs_by_hour` has one count per hour of the day (24 entries),
/// `recs_by_date` one entry per day of the sliding window in
/// chronological order, and `recs_by_month` one count per month
/// (12 entries, January first) over the trailing year.
#[derive(Clone, Debug)]
pub struct State {
    pub date: Day,
    pub list: SelectableList<Record>,
    pub level: Level,
    pub recs_by_hour: Vec<usize>,
    pub recs_by_date: Vec<DayCount>,
    pub recs_by_month: Vec<usize>,
}

impl State {
    pub open spec fn wf(self) -> bool {
        &&& self.recs_by_hour@.len() == 24
        &&& self.recs_by_month@.len() == 12
        &&& self.level.wf()
        &&& forall|i: int| 0 <= i < self.list.items@.len() ==> self.list.items@[i].wf()
    }

    /// A freshly constructed state for `date`: an empty reversed record
    /// list, an empty baseline, and all-zero aggregates.
    pub open spec fn spec_fresh(self, date: Day) -> bool {
        &&& self.date == date
        &&& self.list.items@.len() == 0
        &&& self.list.cursor == 0
        &&& self.list.reversed
        &&& self.level == (Level { count: 0, middle_num: 0, middle_den: 1, target: 0 })
        &&& self.recs_by_hour@ == Seq::new(24, |i: int| 0usize)
        &&& self.recs_by_date@ == Seq::<DayCount>::empty()
        &&& self.recs_by_month@ == Seq::new(12, |i: int| 0usize)
    }

    pub fn new(date: Day) -> (s: State)
        ensures
            s.spec_fresh(date),
            s.wf(),
    {
        let hours: Vec<usize> = vec![0; 24];
        let months: Vec<usize> = vec![0; 12];
        proof {
            assert(hours@ =~= Seq::new(24, |i: int| 0usize));
            assert(months@ =~= Seq::new(12, |i: int| 0usize));
        }
        State {
            date,
            list: SelectableList::new().with_reversed_selection(true),
            level: Level::new(0, 0, 1, 0),
            recs_by_hour: hours,
            recs_by_date: Vec::new(),
            recs_by_month: months,
        }
    }
}

/// How many of the records fall in hour `h` of the day.
pub open spec fn hour_count(s: Seq<Record>, h: int) -> int
    decreases s.len(),
{
    if s.len() == 0 {
        0
    } else {
        hour_count(s.drop_last(), h) + if s.last().spec_hour() == h {
            1int
        } else {
            0int
        }
    }
}

/// Sum of the counts of a sequence of day/count pairs.
pub open spec fn sum_day_counts(s: Seq<DayCount>) -> int
    decreases s.len(),
{
    if s.len() == 0 {
        0
    } else {
        sum_day_counts(s.drop_last()) + s.last().count
    }
}

/// Sum of the counts of the days falling in month `m`.
pub open spec fn month_count(s: Seq<DayCount>, m: int) -> int
    decreases s.len(),
{
    if s.len() == 0 {
        0
    } else {
        month_count(s.drop_last(), m) + if month_of(s.last().day as int) == m {
            s.last().count as int
        } else {
            0int
        }
    }
}

/// A count nudged one step up or down, saturating at both ends; the
/// month aggregate never underflows below zero nor overflows.
pub open spec fn spec_bump(v: usize, up: bool) -> usize {
    if up {
        if v == usize::MAX {
            v
        } else {
            (v + 1) as usize
        }
    } else {
        if v == 0 {
            0usize
        } else {
            (v - 1) as usize
        }
    }
}

/// The month aggregate after applying one action: the bucket of the
/// record's month moves one step up for an `Add` and one step down for a
/// `Delete`.
pub open spec fn spec_apply_months(months: Seq<usize>, a: Action) -> Seq<usize> {
    let m = month_of(a.spec_record().day as int);
    if 1 <= m <= 12 && months.len() == 12 {
        months.update(m - 1, spec_bump(months[m - 1], a is Add))
    } else {
        months
    }
}

/// One tab: its title and configured target, the derived state, the
/// undo and redo stacks, and the sliding day window.
#[derive(Debug)]
pub struct Tab {
    pub title: String,
    pub target: usize,
    pub state: State,
    pub undoes: Vec<Action>,
    pub redoes: Vec<Action>,
    pub days_frame: DaysFrame,
}

/// The transition committed after the store accepted a brand-new action
/// `a` (a user add or delete): the month bucket of the acted-on record
/// moves one step, the inverse action is pushed for undo, and the redo
/// history is invalidated.  Nothing else changes.
pub open spec fn spec_commit(pre: Tab, post: Tab, a: Action) -> bool {
    &&& post.state.recs_by_month@ == spec_apply_months(pre.state.recs_by_month@, a)
    &&& post.undoes@ == pre.undoes@.push(a.spec_inverse())
    &&& post.redoes@ == Seq::<Action>::empty()
    &&& post.title == pre.title
    &&& post.target == pre.target
    &&& post.days_frame == pre.days_frame
    &&& post.state.date == pre.state.date
    &&& post.state.list == pre.state.list
    &&& post.state.level == pre.state.level
    &&& post.state.recs_by_hour == pre.state.recs_by_hour
    &&& post.state.recs_by_date == pre.state.recs_by_date
}

/// The transition committed after the store accepted the topmost undo
/// action: that action is popped and applied to the month aggregate, and
/// its inverse is pushed onto the redo stack.  Nothing else changes.
pub open spec fn spec_undo(pre: Tab, post: Tab) -> bool {
    &&& pre.undoes@.len() > 0
    &&& post.undoes@ == pre.undoes@.drop_last()
    &&& post.redoes@ == pre.redoes@.push(pre.undoes@.last().spec_inverse())
    &&& post.state.recs_by_month@ == spec_apply_months(
        pre.state.recs_by_month@,
        pre.undoes@.last(),
    )
    &&& post.title == pre.title
    &&& post.target == pre.target
    &&& post.days_frame == pre.days_frame
    &&& post.state.date == pre.state.date
    &&& post.state.list == pre.state.list
    &&& post.state.level == pre.state.level
    &&& post.state.recs_by_hour == pre.state.recs_by_hour
    &&& post.state.recs_by_date == pre.state.recs_by_date
}

/// The transition committed after the store accepted the topmost redo
/// action: the mirror image of [`spec_undo`].
pub open spec fn spec_redo(pre: Tab, post: Tab) -> bool {
    &&& pre.redoes@.len() > 0
    &&& post.redoes@ == pre.redoes@.drop_last()
    &&& post.undoes@ == pre.undoes@.push(pre.redoes@.last().spec_inverse())
    &&& post.state.recs_by_month@ == spec_apply_months(
        pre.state.recs_by_month@,
        pre.redoes@.last(),
    )
    &&& post.title == pre.title
    &&& post.target == pre.target
    &&& post.days_frame == pre.days_frame
    &&& post.state.date == pre.state.date
    &&& post.state.list == pre.state.list
    &&& post.state.level == pre.state.level
    &&& post.state.recs_by_hour == pre.state.recs_by_hour
    &&& post.state.recs_by_date == pre.state.recs_by_date
}

impl Tab {
    pub open spec fn wf(self) -> bool {
        &&& self.state.wf()
        &&& self.days_frame.wf()
        &&& forall|i: int| 0 <= i < self.undoes@.len() ==> self.undoes@[i].wf()
        &&& forall|i: int| 0 <= i < self.redoes@.len() ==> self.redoes@[i].wf()
    }

    /// Builds a tab viewing `today`, with a fresh state, empty stacks,
    /// and the day window ending on `today`.
    pub fn new(title: String, target: usize, today: Day) -> (t: Tab)
        requires
            MIN_DAY <= today <= MAX_DAY,
        ensures
            t.wf(),
            t.title == title,
            t.target == target,
            t.state.spec_fresh(today),
            t.undoes@ == Seq::<Action>::empty(),
            t.redoes@ == Seq::<Action>::empty(),
            t.days_frame == (DaysFrame {
                cur: today,
                start: (today - FRAME_DAYS + 1) as Day,
                end: today,
            }),
    {
        Tab {
            title,
            target,
            state: State::new(today),
            undoes: Vec::new(),
            redoes: Vec::new(),
            days_frame: DaysFrame::new(today, FRAME_DAYS),
        }
    }

    pub fn title(&self) -> (t: &String)
        ensures
            t@ == self.title@,
    {
        &self.title
    }

    /// The record under the list cursor, if any.
    pub fn selected_record(&self) -> (r: Option<Record>)
        ensures
            r == (if self.state.list.items@.len() == 0 {
                Option::<Record>::None
            } else {
                Option::Some(self.state.list.items@[self.state.list.spec_selected()])
            }),
    {
        match self.state.list.selected_item() {
            Option::Some(rec) => Option::Some(*rec),
            Option::None => Option::None,
        }
    }

    /// Nudges the month bucket of `rec`'s month one step up or down,
    /// saturating at both ends.
    fn bump_month(&mut self, rec: Record, up: bool)
        requires
            old(self).state.recs_by_month@.len() == 12,
            rec.wf(),
        ensures
            final(self).state.recs_by_month@ == spec_apply_months(
                old(self).state.recs_by_month@,
                if up {
                    Action::Add(rec)
                } else {
                    Action::Delete(rec)
                },
            ),
            final(self).state.recs_by_month@.len() == 12,
            final(self).title == old(self).title,
            final(self).target == old(self).target,
            final(self).days_frame == old(self).days_frame,
            final(self).undoes == old(self).undoes,
            final(self).redoes == old(self).redoes,
            final(self).state.date == old(self).state.date,
            final(self).state.list == old(self).state.list,
            final(self).state.level == old(self).state.level,
            final(self).state.recs_by_hour == old(self).state.recs_by_hour,
            final(self).state.recs_by_date == old(self).state.recs_by_date,
    {
        let m: u8 = month_of_day(rec.day);
        let i: usize = (m - 1) as usize;
        let v: usize = self.state.recs_by_month[i];
        let bumped: usize = if up {
            if v == usize::MAX {
                v
            } else {
                v + 1
            }
        } else {
            if v == 0 {
                0
            } else {
                v - 1
            }
        };
        self.state.recs_by_month[i] = bumped;
    }

    /// Commits a brand-new user action whose store write already
    /// succeeded: adjusts the month aggregate, pushes the inverse for
    /// undo, and clears the redo history.
    fn commit_new_action(&mut self, a: Action)
        requires
            old(self).wf(),
            a.wf(),
        ensures
            final(self).wf(),
            spec_commit(*old(self), *final(self), a),
    {
        let rec: Record = a.record();
        self.bump_month(rec, matches!(a, Action::Add(_)));
        self.undoes.push(a.inverse());
        self.redoes.clear();
    }

    /// Commits a record freshly added to the store at `now`.
    pub fn add_record(&mut self, now: Record)
        requires
            old(self).wf(),
            now.wf(),
        ensures
            final(self).wf(),
            spec_commit(*old(self), *final(self), Action::Add(now)),
    {
        self.commit_new_action(Action::Add(now));
    }

    /// Commits the deletion of the currently selected record, whose
    /// removal from the store already succeeded; a no-op when nothing is
    /// selected.  Returns the record the transition acted on.
    pub fn delete_selected_record(&mut self) -> (deleted: Option<Record>)
        requires
            old(self).wf(),
        ensures
            final(self).wf(),
            match deleted {
                Option::Some(rec) => {
                    &&& old(self).state.list.items@.len() > 0
                    &&& rec == old(self).state.list.items@[old(self).state.list.spec_selected()]
                    &&& spec_commit(*old(self), *final(self), Action::Delete(rec))
                },
                Option::None => {
                    &&& old(self).state.list.items@.len() == 0
                    &&& *final(self) == *old(self)
                },
            },
    {
        match self.selected_record() {
            Option::Some(rec) => {
                self.commit_new_action(Action::Delete(rec));
                Option::Some(rec)
            },
            Option::None => Option::None,
        }
    }

    /// The action an undo would replay against the store, without
    /// changing any state: the top of the undo stack.
    pub fn next_undo(&self) -> (a: Option<Action>)
        ensures
            a == (if self.undoes@.len() == 0 {
                Option::<Action>::None
            } else {
                Option::Some(self.undoes@.last())
            }),
    {
        if self.undoes.len() == 0 {
            Option::None
        } else {
            Option::Some(self.undoes[self.undoes.len() - 1])
        }
    }

    /// The action a redo would replay against the store: the top of the
    /// redo stack.
    pub fn next_redo(&self) -> (a: Option<Action>)
        ensures
            a == (if self.redoes@.len() == 0 {
                Option::<Action>::None
            } else {
                Option::Some(self.redoes@.last())
            }),
    {
        if self.redoes.len() == 0 {
            Option::None
        } else {
            Option::Some(self.redoes[self.redoes.len() - 1])
        }
    }

    /// Commits the topmost undo action after its store write succeeded.
    pub fn commit_undo(&mut self)
        requires
            old(self).wf(),
            old(self).undoes@.len() > 0,
        ensures
            final(self).wf(),
            spec_undo(*old(self), *final(self)),
    {
        let a: Action = self.undoes[self.undoes.len() - 1];
        self.undoes.pop();
        self.bump_month(a.record(), matches!(a, Action::Add(_)));
        self.redoes.push(a.inverse());
        proof {
            assert(final(self).undoes@ =~= old(self).undoes@.drop_last());
        }
    }

    /// Commits the topmost redo action after its store write succeeded.
    pub fn commit_redo(&mut self)
        requires
            old(self).wf(),
            old(self).redoes@.len() > 0,
        ensures
            final(self).wf(),
            spec_redo(*old(self), *final(self)),
    {
        let a: Action = self.redoes[self.redoes.len() - 1];
        self.redoes.pop();
        self.bump_month(a.record(), matches!(a, Action::Add(_)));
        self.undoes.push(a.inverse());
        proof {
            assert(final(self).redoes@ =~= old(self).redoes@.drop_last());
        }
    }

    /// Step one of resolution: the viewed date becomes the window cursor.
    pub fn resolve_date(&mut self)
        ensures
            spec_same_shell(*old(self), *final(self)),
            final(self).state.date == old(self).days_frame.cur,
            final(self).state.list == old(self).state.list,
            final(self).state.level == old(self).state.level,
            final(self).state.recs_by_hour == old(self).state.recs_by_hour,
            final(self).state.recs_by_date == old(self).state.recs_by_date,
            final(self).state.recs_by_month == old(self).state.recs_by_month,
            old(self).wf() ==> final(self).wf(),
    {
        self.state.date = self.days_frame.cur;
    }

    /// Takes the store's records for the viewed day as the new record
    /// list, keeping the cursor and its reversed direction.
    pub fn resolve_list(&mut self, recs: Vec<Record>)
        requires
            old(self).wf(),
            forall|i: int| 0 <= i < recs@.len() ==> recs@[i].wf(),
        ensures
            final(self).wf(),
            spec_same_shell(*old(self), *final(self)),
            final(self).state.list.items == recs,
            final(self).state.list.cursor == old(self).state.list.cursor,
            final(self).state.list.reversed == old(self).state.list.reversed,
            final(self).state.date == old(self).state.date,
            final(self).state.level == old(self).state.level,
            final(self).state.recs_by_hour == old(self).state.recs_by_hour,
            final(self).state.recs_by_date == old(self).state.recs_by_date,
            final(self).state.recs_by_month == old(self).state.recs_by_month,
    {
        self.state.list.set_items(recs);
    }

    /// Rebuilds the level from the viewed day's count and the counts of
    /// the recent baseline window (see [`Tab::level_window`]).
    pub fn resolve_level(&mut self, today_count: usize, recent: &Vec<usize>)
        requires
            old(self).wf(),
            sum_counts(recent@) <= usize::MAX,
            recent@.len() <= 0xFFFF_FFFFusize,
        ensures
            final(self).wf(),
            spec_same_shell(*old(self), *final(self)),
            final(self).state.level == spec_level_for_counts(
                today_count,
                recent@,
                old(self).target,
            ),
            final(self).state.date == old(self).state.date,
            final(self).state.list == old(self).state.list,
            final(self).state.recs_by_hour == old(self).state.recs_by_hour,
            final(self).state.recs_by_date == old(self).state.recs_by_date,
            final(self).state.recs_by_month == old(self).state.recs_by_month,
    {
        self.state.level = Level::for_counts(today_count, recent, self.target);
    }

    /// Rebuilds the per-hour aggregate from the viewed day's records:
    /// one bucket per hour, each holding how many records fall into it.
    pub fn resolve_hours(&mut self, recs: &Vec<Record>)
        requires
            old(self).wf(),
            forall|i: int| 0 <= i < recs@.len() ==> recs@[i].wf(),
        ensures
            final(self).wf(),
            spec_same_shell(*old(self), *final(self)),
            final(self).state.recs_by_hour@.len() == 24,
            forall|h: int|
                0 <= h < 24 ==> final(self).state.recs_by_hour@[h] == hour_count(recs@, h),
            final(self).state.date == old(self).state.date,
            final(self).state.list == old(self).state.list,
            final(self).state.level == old(self).state.level,
            final(self).state.recs_by_date == old(self).state.recs_by_date,
            final(self).state.recs_by_month == old(self).state.recs_by_month,
    {
        let mut hours: Vec<usize> = vec![0; 24];
        proof {
            assert(forall|h: int| 0 <= h < 24 ==> hours@[h] == hour_count(recs@.take(0), h));
        }
        let mut i: usize = 0;
        while i < recs.len()
            invariant
                i <= recs@.len(),
                hours@.len() == 24,
                forall|i2: int| 0 <= i2 < recs@.len() ==> recs@[i2].wf(),
                forall|h: int| 0 <= h < 24 ==> hours@[h] == hour_count(recs@.take(i as int), h),
            decreases recs@.len() - i,
        {
            proof {
                lemma_hour_count_take_step(recs@, i as int);
                lemma_hour_count_bounds(recs@.take(i as int));
            }
            let h: u8 = recs[i].hour();
            let idx: usize = h as usize;
            let v: usize = hours[idx];
            hours[idx] = v + 1;
            i = i + 1;
        }
        proof {
            assert(recs@.take(recs@.len() as int) =~= recs@);
        }
        self.state.recs_by_hour = hours;
    }

    /// Rebuilds the per-day aggregate of the sliding window: `counts`
    /// holds the store's record count for each day of the window in
    /// chronological order, and the result pairs each day with its count
    /// in the same order.
    pub fn resolve_dates(&mut self, counts: &Vec<usize>)
        requires
            old(self).wf(),
            counts@.len() == old(self).days_frame.end - old(self).days_frame.start + 1,
        ensures
            final(self).wf(),
            spec_same_shell(*old(self), *final(self)),
            final(self).state.recs_by_date@.len() == counts@.len(),
            forall|i: int|
                0 <= i < counts@.len() ==> {
                    &&& #[trigger] final(self).state.recs_by_date@[i].day == old(
                        self,
                    ).days_frame.start + i
                    &&& final(self).state.recs_by_date@[i].count == counts@[i]
                },
            final(self).state.date == old(self).state.date,
            final(self).state.list == old(self).state.list,
            final(self).state.level == old(self).state.level,
            final(self).state.recs_by_hour == old(self).state.recs_by_hour,
            final(self).state.recs_by_month == old(self).state.recs_by_month,
    {
        let mut by_date: Vec<DayCount> = Vec::new();
        let mut i: usize = 0;
        while i < counts.len()
            invariant
                i <= counts@.len(),
                self.days_frame == old(self).days_frame,
                counts@.len() == self.days_frame.end - self.days_frame.start + 1,
                self.days_frame.wf(),
                by_date@.len() == i,
                forall|i2: int|
                    0 <= i2 < i ==> {
                        &&& #[trigger] by_date@[i2].day == self.days_frame.start + i2
                        &&& by_date@[i2].count == counts@[i2]
                    },
            decreases counts@.len() - i,
        {
            let day: Day = ((self.days_frame.start as i64) + (i as i64)) as i32;
            by_date.push(DayCount { day, count: counts[i] });
            i = i + 1;
        }
        self.state.recs_by_date = by_date;
    }

    /// Rebuilds the trailing-year month aggregate: `counts` holds one
    /// entry per day of the trailing-year window with that day's record
    /// count, and each of the twelve buckets receives the sum of the
    /// counts of the days falling in its month.
    pub fn resolve_months(&mut self, counts: &Vec<DayCount>)
        requires
            old(self).wf(),
            forall|i: int| 0 <= i < counts@.len() ==> MIN_DAY <= #[trigger] counts@[i].day <= MAX_DAY,
            sum_day_counts(counts@) <= usize::MAX,
        ensures
            final(self).wf(),
            spec_same_shell(*old(self), *final(self)),
            final(self).state.recs_by_month@.len() == 12,
            forall|m: int|
                1 <= m <= 12 ==> final(self).state.recs_by_month@[m - 1] == month_count(
                    counts@,
                    m,
                ),
            final(self).state.date == old(self).state.date,
            final(self).state.list == old(self).state.list,
            final(self).state.level == old(self).state.level,
            final(self).state.recs_by_hour == old(self).state.recs_by_hour,
            final(self).state.recs_by_date == old(self).state.recs_by_date,
    {
        let mut months: Vec<usize> = vec![0; 12];
        proof {
            assert(forall|m: int| 1 <= m <= 12 ==> months@[m - 1] == month_count(
                counts@.take(0),
                m,
            ));
        }
        let mut i: usize = 0;
        while i < counts.len()
            invariant
                i <= counts@.len(),
                months@.len() == 12,
                forall|i2: int|
                    0 <= i2 < counts@.len() ==> MIN_DAY <= #[trigger] counts@[i2].day <= MAX_DAY,
                sum_day_counts(counts@) <= usize::MAX,
                forall|m: int|
                    1 <= m <= 12 ==> months@[m - 1] == month_count(counts@.take(i as int), m),
            decreases counts@.len() - i,
        {
            let dc: DayCount = counts[i];
            let m: u8 = month_of_day(dc.day);
            let idx: usize = (m - 1) as usize;
            let v: usize = months[idx];
            proof {
                lemma_month_count_take_step(counts@, i as int);
                lemma_sum_day_counts_take_bound(counts@, i + 1);
                lemma_month_count_le_sum(counts@.take(i + 1));
                assert(v == month_count(counts@.take(i as int), m as int));
                assert(month_count(counts@.take(i + 1), m as int) == v + dc.count);
                assert(month_count(counts@.take(i + 1), m as int) <= sum_day_counts(
                    counts@.take(i + 1),
                ));
                assert(sum_day_counts(counts@.take(i + 1)) <= sum_day_counts(counts@));
            }
            months[idx] = v + dc.count;
            i = i + 1;
        }
        proof {
            assert(counts@.take(counts@.len() as int) =~= counts@);
        }
        self.state.recs_by_month = months;
    }

    /// The inclusive range of days the sliding window covers.
    pub fn days_window(&self) -> (r: (Day, Day))
        ensures
            r.0 == self.days_frame.start,
            r.1 == self.days_frame.end,
    {
        (self.days_frame.start, self.days_frame.end)
    }

    /// The inclusive range of days feeding the level baseline: the days
    /// immediately before the viewed date, the viewed date excluded.
    pub fn level_window(&self) -> (r: (Day, Day))
        requires
            self.state.date - LEVEL_BASELINE_DAYS >= i32::MIN,
        ensures
            r.0 == self.state.date - LEVEL_BASELINE_DAYS,
            r.1 == self.state.date - 1,
    {
        (self.state.date - LEVEL_BASELINE_DAYS, self.state.date - 1)
    }

    /// Moves the viewing cursor one day back, sliding the window with it
    /// as [`DaysFrame::prev`] does; the caller re-resolves afterwards.
    pub fn prev_date(&mut self)
        requires
            old(self).wf(),
            old(self).days_frame.start > i32::MIN,
        ensures
            final(self).wf(),
            final(self).state == old(self).state,
            final(self).title == old(self).title,
            final(self).target == old(self).target,
            final(self).undoes == old(self).undoes,
            final(self).redoes == old(self).redoes,
            final(self).days_frame.wf(),
            final(self).days_frame.cur == old(self).days_frame.cur - 1,
            final(self).days_frame.end - final(self).days_frame.start == old(
                self,
            ).days_frame.end - old(self).days_frame.start,
            final(self).days_frame.end <= old(self).days_frame.end,
    {
        self.days_frame.prev();
    }

    /// Moves the viewing cursor one day forward, clamped to `today`,
    /// sliding the window with it as [`DaysFrame::next`] does; the caller
    /// re-resolves afterwards.
    pub fn next_date(&mut self, today: Day)
        requires
            old(self).wf(),
            old(self).days_frame.cur <= today,
        ensures
            final(self).wf(),
            final(self).state == old(self).state,
            final(self).title == old(self).title,
            final(self).target == old(self).target,
            final(self).undoes == old(self).undoes,
            final(self).redoes == old(self).redoes,
            final(self).days_frame.wf(),
            final(self).days_frame.cur == if old(self).days_frame.cur + 1 <= today {
                old(self).days_frame.cur + 1
            } else {
                today as int
            },
            final(self).days_frame.cur <= today,
            old(self).days_frame.end <= today ==> final(self).days_frame.end <= today,
    {
        self.days_frame.next(today);
    }

    /// Moves the record-list cursor one logical step towards index 0 and
    /// reports whether it actually moved, so the caller can skip
    /// republishing an unchanged snapshot.
    pub fn prev_selection(&mut self) -> (changed: bool)
        requires
            old(self).wf(),
        ensures
            final(self).wf(),
            spec_same_shell(*old(self), *final(self)),
            final(self).state.list.items == old(self).state.list.items,
            final(self).state.list.reversed == old(self).state.list.reversed,
            final(self).state.list.spec_selected() == if old(self).state.list.spec_selected()
                > 0 {
                old(self).state.list.spec_selected() - 1
            } else {
                0int
            },
            changed == (final(self).state.list.spec_selected() != old(
                self,
            ).state.list.spec_selected()),
            final(self).state.date == old(self).state.date,
            final(self).state.level == old(self).state.level,
            final(self).state.recs_by_hour == old(self).state.recs_by_hour,
            final(self).state.recs_by_date == old(self).state.recs_by_date,
            final(self).state.recs_by_month == old(self).state.recs_by_month,
    {
        let before: usize = self.state.list.selected();
        self.state.list.select_prev();
        let after: usize = self.state.list.selected();
        before != after
    }

    /// Moves the record-list cursor one logical step towards the last
    /// index and reports whether it actually moved.
    pub fn next_selection(&mut self) -> (changed: bool)
        requires
            old(self).wf(),
        ensures
            final(self).wf(),
            spec_same_shell(*old(self), *final(self)),
            final(self).state.list.items == old(self).state.list.items,
            final(self).state.list.reversed == old(self).state.list.reversed,
            final(self).state.list.spec_selected() == if old(self).state.list.spec_selected()
                < old(self).state.list.spec_last_index() {
                old(self).state.list.spec_selected() + 1
            } else {
                old(self).state.list.spec_last_index()
            },
            changed == (final(self).state.list.spec_selected() != old(
                self,
            ).state.list.spec_selected()),
            final(self).state.date == old(self).state.date,
            final(self).state.level == old(self).state.level,
            final(self).state.recs_by_hour == old(self).state.recs_by_hour,
            final(self).state.recs_by_date == old(self).state.recs_by_date,
            final(self).state.recs_by_month == old(self).state.recs_by_month,
    {
        let before: usize = self.state.list.selected();
        self.state.list.select_next();
        let after: usize = self.state.list.selected();
        before != after
    }

    /// Resets the derived state to a fresh one for the viewed date; the
    /// undo and redo stacks belong to the tab and persist.
    pub fn demount(&mut self)
        ensures
            final(self).state.spec_fresh(old(self).state.date),
            final(self).state.wf(),
            final(self).title == old(self).title,
            final(self).target == old(self).target,
            final(self).days_frame == old(self).days_frame,
            final(self).undoes == old(self).undoes,
            final(self).redoes == old(self).redoes,
    {
        self.state = State::new(self.state.date);
    }
}

/// The parts of a tab that resolution and selection never touch: its
/// identity, its undo/redo stacks, and its day window.
pub open spec fn spec_same_shell(pre: Tab, post: Tab) -> bool {
    &&& post.title == pre.title
    &&& post.target == pre.target
    &&& post.days_frame == pre.days_frame
    &&& post.undoes == pre.undoes
    &&& post.redoes == pre.redoes
}

/// The inclusive range of days feeding the month aggregate: the trailing
/// year ending on `today`.
pub fn month_window(today: Day) -> (r: (Day, Day))
    requires
        today - MONTH_WINDOW_DAYS >= i32::MIN,
    ensures
        r.0 == today - MONTH_WINDOW_DAYS,
        r.1 == today,
{
    (today - MONTH_WINDOW_DAYS, today)
}

/// Taking one more record extends each hour tally by exactly that
/// record's bucket.
proof fn lemma_hour_count_take_step(s: Seq<Record>, i: int)
    requires
        0 <= i < s.len(),
    ensures
        forall|h: int| #[trigger]
            hour_count(s.take(i + 1), h) == hour_count(s.take(i), h) + if s[i].spec_hour()
                == h {
                1int
            } else {
                0int
            },
{
    assert(s.take(i + 1).drop_last() =~= s.take(i));
    assert(s.take(i + 1).last() == s[i]);
}

/// No hour holds more records than the sequence has.
proof fn lemma_hour_count_bounds(s: Seq<Record>)
    ensures
        forall|h: int| 0 <= #[trigger] hour_count(s, h) <= s.len(),
    decreases s.len(),
{
    if s.len() > 0 {
        lemma_hour_count_bounds(s.drop_last());
        assert forall|h: int| 0 <= #[trigger] hour_count(s, h) <= s.len() by {
            assert(0 <= hour_count(s.drop_last(), h) <= s.drop_last().len());
        }
    }
}

/// Taking one more day extends each month tally by exactly that day's
/// count when the day falls in the month.
proof fn lemma_month_count_take_step(s: Seq<DayCount>, i: int)
    requires
        0 <= i < s.len(),
    ensures
        forall|m: int| #[trigger]
            month_count(s.take(i + 1), m) == month_count(s.take(i), m) + if month_of(
                s[i].day as int,
            ) == m {
                s[i].count as int
            } else {
                0int
            },
        sum_day_counts(s.take(i + 1)) == sum_day_counts(s.take(i)) + s[i].count,
{
    assert(s.take(i + 1).drop_last() =~= s.take(i));
    assert(s.take(i + 1).last() == s[i]);
}

/// Every partial sum of day counts is at most the whole sum, and none is
/// negative.
proof fn lemma_sum_day_counts_take_bound(s: Seq<DayCount>, i: int)
    requires
        0 <= i <= s.len(),
    ensures
        0 <= sum_day_counts(s.take(i)) <= sum_day_counts(s),
    decreases s.len() - i,
{
    lemma_sum_day_counts_nonneg(s.take(i));
    if i == s.len() {
        assert(s.take(i) =~= s);
    } else {
        lemma_month_count_take_step(s, i);
        lemma_sum_day_counts_take_bound(s, i + 1);
    }
}

proof fn lemma_sum_day_counts_nonneg(s: Seq<DayCount>)
    ensures
        0 <= sum_day_counts(s),
    decreases s.len(),
{
    if s.len() > 0 {
        lemma_sum_day_counts_nonneg(s.drop_last());
    }
}

/// No month's tally exceeds the sum of all day counts.
proof fn lemma_month_count_le_sum(s: Seq<DayCount>)
    ensures
        forall|m: int| 0 <= #[trigger] month_count(s, m) <= sum_day_counts(s),
    decreases s.len(),
{
    lemma_sum_day_counts_nonneg(s);
    if s.len() > 0 {
        lemma_month_count_le_sum(s.drop_last());
        assert forall|m: int| 0 <= #[trigger] month_count(s, m) <= sum_day_counts(s) by {
            assert(0 <= month_count(s.drop_last(), m) <= sum_day_counts(s.drop_last()));
        }
    }
}

/// The derived aggregates are functions of the store's answers alone:
/// any two resolutions fed the same records and day counts produce the
/// same per-hour and per-month aggregates.  So once an undo has restored
/// the store's content, the next resolution reproduces the aggregates
/// the state had before the undone action.
pub proof fn lemma_aggregates_determined_by_store(
    recs: Seq<Record>,
    counts: Seq<DayCount>,
    hours1: Seq<usize>,
    hours2: Seq<usize>,
    months1: Seq<usize>,
    months2: Seq<usize>,
)
    requires
        hours1.len() == 24,
        hours2.len() == 24,
        forall|h: int| 0 <= h < 24 ==> #[trigger] hours1[h] == hour_count(recs, h),
        forall|h: int| 0 <= h < 24 ==> #[trigger] hours2[h] == hour_count(recs, h),
        months1.len() == 12,
        months2.len() == 12,
        forall|m: int| 1 <= m <= 12 ==> #[trigger] months1[m - 1] == month_count(counts, m),
        forall|m: int| 1 <= m <= 12 ==> #[trigger] months2[m - 1] == month_count(counts, m),
    ensures
        hours1 =~= hours2,
        months1 =~= months2,
{
    assert forall|j: int| 0 <= j < 12 implies months1[j] == months2[j] by {
        assert(months1[(j + 1) - 1] == month_count(counts, j + 1));
        assert(months2[(j + 1) - 1] == month_count(counts, j + 1));
    }
}

/// Adding a record and then undoing the addition restores the month
/// aggregate, the undo stack and every other part of the derived state
/// to what they were, and leaves exactly the replayed addition on the
/// redo stack.  (The per-day, per-hour and list aggregates are exact
/// functions of the store's answers, so with the store's content
/// restored the next resolution reproduces them as well.)
pub proof fn lemma_add_then_undo_restores_state(t0: Tab, t1: Tab, t2: Tab, r: Record)
    requires
        t0.state.recs_by_month@.len() == 12,
        forall|j: int| 0 <= j < 12 ==> #[trigger] t0.state.recs_by_month@[j] < usize::MAX,
        spec_commit(t0, t1, Action::Add(r)),
        spec_undo(t1, t2),
    ensures
        t2.state.recs_by_month@ =~= t0.state.recs_by_month@,
        t2.undoes@ =~= t0.undoes@,
        t2.redoes@ =~= seq![Action::Add(r)],
        t2.state.date == t0.state.date,
        t2.state.list == t0.state.list,
        t2.state.level == t0.state.level,
        t2.state.recs_by_hour == t0.state.recs_by_hour,
        t2.state.recs_by_date == t0.state.recs_by_date,
        t2.days_frame == t0.days_frame,
{
    assert(t1.undoes@.last() == Action::Delete(r));
    assert(t1.undoes@.drop_last() =~= t0.undoes@);
}

/// Deleting the selected record and then undoing the deletion replays an
/// addition of the exact record that was deleted, timestamp included,
/// and restores the month aggregate and the undo stack.  (The record
/// itself reappears in the list when the next resolution reads the
/// restored store.)
pub proof fn lemma_delete_then_undo_restores_record(t0: Tab, t1: Tab, t2: Tab, r: Record)
    requires
        t0.state.list.items@.len() > 0,
        r == t0.state.list.items@[t0.state.list.spec_selected()],
        t0.state.recs_by_month@.len() == 12,
        spec_commit(t0, t1, Action::Delete(r)),
        spec_undo(t1, t2),
    ensures
        t1.undoes@.last() == Action::Add(r),
        t2.undoes@ =~= t0.undoes@,
        t2.redoes@ =~= seq![Action::Delete(r)],
        t2.state.list == t0.state.list,
        t2.state.date == t0.state.date,
        t2.days_frame == t0.days_frame,
        (forall|j: int| 0 <= j < 12 ==> #[trigger] t0.state.recs_by_month@[j] >= 1)
            ==> t2.state.recs_by_month@ =~= t0.state.recs_by_month@,
{
    assert(t1.undoes@.drop_last() =~= t0.undoes@);
    if forall|j: int| 0 <= j < 12 ==> #[trigger] t0.state.recs_by_month@[j] >= 1 {
        assert(t2.state.recs_by_month@ =~= t0.state.recs_by_month@);
    }
}

/// Undo followed by redo reproduces the state the original action left
/// behind: the same aggregates and the same stacks as right after the
/// action was first committed.
pub proof fn lemma_undo_then_redo_matches_action(t0: Tab, t1: Tab, t2: Tab, t3: Tab, a: Action)
    requires
        t0.state.recs_by_month@.len() == 12,
        forall|j: int| 0 <= j < 12 ==> #[trigger] t0.state.recs_by_month@[j] < usize::MAX,
        spec_commit(t0, t1, a),
        spec_undo(t1, t2),
        spec_redo(t2, t3),
    ensures
        t3.state.recs_by_month@ =~= t1.state.recs_by_month@,
        t3.undoes@ =~= t1.undoes@,
        t3.redoes@ =~= t1.redoes@,
        t3.state.date == t1.state.date,
        t3.state.list == t1.state.list,
        t3.state.level == t1.state.level,
        t3.state.recs_by_hour == t1.state.recs_by_hour,
        t3.state.recs_by_date == t1.state.recs_by_date,
        t3.days_frame == t1.days_frame,
{
    assert(t1.undoes@.last() == a.spec_inverse());
    assert(t2.redoes@.last() == a);
    assert(t2.undoes@ =~= t0.undoes@);
    assert(t3.undoes@ =~= t1.undoes@);
}

/// Committing any new action clears the redo history: after
/// add-undo-add, there is nothing left to redo, and no redo transition
/// is possible at all.
pub proof fn lemma_new_action_clears_redo(
    t0: Tab,
    t1: Tab,
    t2: Tab,
    t3: Tab,
    r1: Record,
    r2: Record,
)
    requires
        spec_commit(t0, t1, Action::Add(r1)),
        spec_undo(t1, t2),
        spec_commit(t2, t3, Action::Add(r2)),
    ensures
        t3.redoes@.len() == 0,
        forall|t4: Tab| !spec_redo(t3, t4),
{
}

} // verus!
