//! Which columns of the process table are shown: one flag per column of a
//! fixed schema, set by the operator and kept across samples.

use vstd::prelude::*;

verus! {

/// Number of columns in the process table.
pub const COLUMN_COUNT: usize = 14;

/// `shown` with the flag of column `i` flipped; an index past the end changes nothing.
pub open spec fn toggled(shown: Seq<bool>, i: int) -> Seq<bool> {
    if 0 <= i < shown.len() {
        shown.update(i, !shown[i])
    } else {
        shown
    }
}

/// Proves that toggling a column twice restores the visibility flags.
pub proof fn lemma_toggle_twice(shown: Seq<bool>, i: int)
    ensures
        toggled(toggled(shown, i), i) == shown,
{
    assert(toggled(toggled(shown, i), i) =~= shown);
}

/// Visibility of each column of the process table, index-aligned to its schema.
pub struct ColumnVisibility {
    pub shown: Vec<bool>,
}

impl ColumnVisibility {
    /// All `count` columns shown.
    pub fn all_shown(count: usize) -> (r: ColumnVisibility)
        ensures
            r.shown@.len() == count,
            forall|i: int| 0 <= i < count ==> #[trigger] r.shown@[i],
    {
        let mut shown: Vec<bool> = Vec::new();
        let mut i: usize = 0;
        while i < count
            invariant
                i <= count,
                shown@.len() == i,
                forall|j: int| 0 <= j < i ==> #[trigger] shown@[j],
            decreases count - i,
        {
            shown.push(true);
            i += 1;
        }
        ColumnVisibility { shown }
    }

    /// Flips the visibility of column `column`; a column past the schema is ignored.
    pub fn toggle(&mut self, column: usize)
        ensures
            final(self).shown@ == toggled(old(self).shown@, column as int),
    {
        if column < self.shown.len() {
            let now = !self.shown[column];
            self.shown.set(column, now);
        }
    }

    /// Whether column `column` is shown; a column past the schema is not.
    pub fn is_shown(&self, column: usize) -> (r: bool)
        ensures
            r == (column < self.shown@.len() && self.shown@[column as int]),
    {
        column < self.shown.len() && self.shown[column]
    }
}

} // verus!
