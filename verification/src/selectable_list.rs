//! An ordered sequence of items with a single bounded cursor.

use vstd::prelude::*;

verus! {

/// An ordered container with one logical cursor.
///
/// The cursor is stored raw and clamped to the last valid index on every
/// read, so no structural change can leave it dangling; an empty list has
/// no valid selection.  When `reversed` is set, the physical direction of
/// `select_next` / `select_prev` is flipped, so that the logical "next"
/// always moves towards the visually first (most recent) entry regardless
/// of storage order.
#[derive(Clone, Debug)]
pub struct SelectableList<T> {
    pub items: Vec<T>,
    pub cursor: usize,
    pub reversed: bool,
}

impl<T> SelectableList<T> {
    /// The index of the last item; 0 for an empty list.
    pub open spec fn spec_last_index(self) -> int {
        if self.items@.len() == 0 {
            0
        } else {
            self.items@.len() - 1
        }
    }

    /// The stored cursor clamped to the valid range.
    pub open spec fn spec_clamped(self) -> int {
        if self.cursor <= self.spec_last_index() {
            self.cursor as int
        } else {
            self.spec_last_index()
        }
    }

    /// The logical, direction-adjusted cursor position.
    pub open spec fn spec_selected(self) -> int {
        if self.reversed {
            self.spec_last_index() - self.spec_clamped()
        } else {
            self.spec_clamped()
        }
    }

    pub fn new() -> (r: Self)
        ensures
            r.items@ =~= Seq::<T>::empty(),
            r.cursor == 0,
            !r.reversed,
    {
        Self { items: Vec::new(), cursor: 0, reversed: false }
    }

    /// Builds a list from a sequence of items, with the cursor reset to 0.
    pub fn from_items(items: Vec<T>) -> (r: Self)
        ensures
            r.items == items,
            r.cursor == 0,
            !r.reversed,
    {
        Self { items, cursor: 0, reversed: false }
    }

    pub fn with_reversed_selection(self, val: bool) -> (r: Self)
        ensures
            r.items == self.items,
            r.cursor == self.cursor,
            r.reversed == val,
    {
        Self { items: self.items, cursor: self.cursor, reversed: val }
    }

    pub fn len(&self) -> (n: usize)
        ensures
            n == self.items@.len(),
    {
        self.items.len()
    }

    pub fn is_empty(&self) -> (b: bool)
        ensures
            b == (self.items@.len() == 0),
    {
        self.items.len() == 0
    }

    pub fn get(&self, i: usize) -> (r: Option<&T>)
        ensures
            match r {
                Some(x) => i < self.items@.len() && *x == self.items@[i as int],
                None => i >= self.items@.len(),
            },
    {
        if i < self.items.len() {
            Some(&self.items[i])
        } else {
            None
        }
    }

    /// Replaces the backing items, keeping the cursor and direction.
    pub fn set_items(&mut self, items: Vec<T>)
        ensures
            final(self).items == items,
            final(self).cursor == old(self).cursor,
            final(self).reversed == old(self).reversed,
    {
        self.items = items;
    }

    fn last_index(&self) -> (i: usize)
        ensures
            i == self.spec_last_index(),
    {
        if self.items.len() == 0 {
            0
        } else {
            self.items.len() - 1
        }
    }

    fn clamped(&self) -> (i: usize)
        ensures
            i == self.spec_clamped(),
    {
        let last: usize = self.last_index();
        if self.cursor <= last {
            self.cursor
        } else {
            last
        }
    }

    /// The logical cursor position, clamped and direction-adjusted; always
    /// within `[0, len - 1]` for a non-empty list.
    pub fn selected(&self) -> (i: usize)
        ensures
            i == self.spec_selected(),
            self.items@.len() > 0 ==> i < self.items@.len(),
    {
        let index: usize = self.clamped();
        if self.reversed {
            self.last_index() - index
        } else {
            index
        }
    }

    /// The item under the logical cursor, or `None` for an empty list.
    pub fn selected_item(&self) -> (r: Option<&T>)
        ensures
            match r {
                Some(x) => self.items@.len() > 0 && *x == self.items@[self.spec_selected()],
                None => self.items@.len() == 0,
            },
    {
        self.get(self.selected())
    }

    /// Moves the cursor to `i`, clamped to the valid range.
    pub fn select(&mut self, i: usize)
        ensures
            final(self).items == old(self).items,
            final(self).reversed == old(self).reversed,
            final(self).cursor == if i <= old(self).spec_last_index() {
                i as int
            } else {
                old(self).spec_last_index()
            },
    {
        let last: usize = self.last_index();
        self.cursor = if i <= last {
            i
        } else {
            last
        };
    }

    fn step_back(&mut self)
        ensures
            final(self).items == old(self).items,
            final(self).reversed == old(self).reversed,
            final(self).spec_clamped() == if old(self).spec_clamped() > 0 {
                old(self).spec_clamped() - 1
            } else {
                0
            },
    {
        let c: usize = self.clamped();
        let target: usize = if c > 0 {
            c - 1
        } else {
            0
        };
        self.select(target);
    }

    fn step_forward(&mut self)
        ensures
            final(self).items == old(self).items,
            final(self).reversed == old(self).reversed,
            final(self).spec_clamped() == if old(self).spec_clamped() < old(self).spec_last_index() {
                old(self).spec_clamped() + 1
            } else {
                old(self).spec_last_index()
            },
    {
        let last: usize = self.last_index();
        let c: usize = self.clamped();
        if c < last {
            self.select(c + 1);
        } else {
            self.select(last);
        }
    }

    /// Moves the logical cursor one step towards index 0, saturating there.
    pub fn select_prev(&mut self)
        ensures
            final(self).items == old(self).items,
            final(self).reversed == old(self).reversed,
            final(self).spec_selected() == if old(self).spec_selected() > 0 {
                old(self).spec_selected() - 1
            } else {
                0
            },
    {
        if self.reversed {
            self.step_forward();
        } else {
            self.step_back();
        }
    }

    /// Moves the logical cursor one step towards the last index, saturating
    /// there; the cursor never wraps.
    pub fn select_next(&mut self)
        ensures
            final(self).items == old(self).items,
            final(self).reversed == old(self).reversed,
            final(self).spec_selected() == if old(self).spec_selected() < old(self).spec_last_index() {
                old(self).spec_selected() + 1
            } else {
                old(self).spec_last_index()
            },
    {
        if self.reversed {
            self.step_back();
        } else {
            self.step_forward();
        }
    }

    /// Advances the raw cursor by one, wrapping around past the end.  Used
    /// for the tab bar, where "next" cycles through all entries.
    pub fn wrapping_select_next(&mut self)
        requires
            old(self).items@.len() > 0,
        ensures
            final(self).items == old(self).items,
            final(self).reversed == old(self).reversed,
            final(self).cursor == (if old(self).cursor == usize::MAX {
                0int
            } else {
                old(self).cursor + 1
            }) % (old(self).items@.len() as int),
    {
        let bumped: usize = if self.cursor == usize::MAX {
            0
        } else {
            self.cursor + 1
        };
        self.cursor = bumped % self.items.len();
    }
}

/// The logical cursor of a non-empty list always lies in `[0, len - 1]`:
/// every read is clamped, and `select_next` / `select_prev` saturate at
/// the ends rather than wrapping.
pub proof fn lemma_selected_in_bounds<T>(l: SelectableList<T>)
    requires
        l.items@.len() > 0,
    ensures
        0 <= l.spec_selected() < l.items@.len(),
{
}

} // verus!
