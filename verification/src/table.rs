//! Row selection of a list screen (the selected index of a table).

use vstd::prelude::*;

verus! {

/// Selected row of a table, if any.
#[derive(Debug, Clone, Copy, PartialEq, Eq, Structural)]
pub struct TableSelection {
    pub selected: Option<usize>,
}

impl Default for TableSelection {
    fn default() -> (t: TableSelection)
        ensures
            t.selected.is_none(),
    {
        TableSelection { selected: None }
    }
}

impl TableSelection {
    /// The selected row index.
    pub fn selected(&self) -> (r: Option<usize>)
        ensures
            r == self.selected,
    {
        self.selected
    }

    /// Select a row (or clear the selection with `None`).
    pub fn select(&mut self, index: Option<usize>)
        ensures
            final(self).selected == index,
    {
        self.selected = index;
    }
}

/// The selected index, reading "nothing selected" as the first row.
pub open spec fn cursor(sel: Option<usize>) -> int {
    match sel {
        Some(i) => i as int,
        None => 0,
    }
}

/// Selection after moving one row down in a list of `len` rows: the row
/// after the cursor when there is one, else unchanged.
pub open spec fn select_down(sel: Option<usize>, len: int) -> Option<usize> {
    if cursor(sel) + 1 < len {
        Some((cursor(sel) + 1) as usize)
    } else {
        sel
    }
}

/// Selection after moving one row up: the row before the cursor when the
/// cursor is past the first row, else unchanged.
pub open spec fn select_up(sel: Option<usize>) -> Option<usize> {
    if cursor(sel) > 0 {
        Some((cursor(sel) - 1) as usize)
    } else {
        sel
    }
}

/// Selection after jumping to the first row (unchanged on an empty list).
pub open spec fn select_top(sel: Option<usize>, len: int) -> Option<usize> {
    if len > 0 {
        Some(0)
    } else {
        sel
    }
}

/// Selection after jumping to the last row (unchanged on an empty list).
pub open spec fn select_bottom(sel: Option<usize>, len: int) -> Option<usize> {
    if len > 0 {
        Some((len - 1) as usize)
    } else {
        sel
    }
}

impl TableSelection {
    /// Move one row down in a list of `len` rows.
    pub fn move_down(&mut self, len: usize)
        ensures
            final(self).selected == select_down(old(self).selected, len as int),
    {
        let i = match self.selected {
            Some(i) => i,
            None => 0,
        };
        if i < len && i + 1 < len {
            self.selected = Some(i + 1);
        }
    }

    /// Move one row up.
    pub fn move_up(&mut self)
        ensures
            final(self).selected == select_up(old(self).selected),
    {
        let i = match self.selected {
            Some(i) => i,
            None => 0,
        };
        if i > 0 {
            self.selected = Some(i - 1);
        }
    }

    /// Jump to the first row of a list of `len` rows.
    pub fn move_top(&mut self, len: usize)
        ensures
            final(self).selected == select_top(old(self).selected, len as int),
    {
        if len > 0 {
            self.selected = Some(0);
        }
    }

    /// Jump to the last row of a list of `len` rows.
    pub fn move_bottom(&mut self, len: usize)
        ensures
            final(self).selected == select_bottom(old(self).selected, len as int),
    {
        if len > 0 {
            self.selected = Some(len - 1);
        }
    }
}

/// Moving up and down keeps an in-range selection in range, and first/last
/// land on the list's ends: every selection these steps produce from an
/// in-range (or empty) selection indexes a row when the list has any.
pub proof fn lemma_selection_stays_in_range(sel: Option<usize>, len: int)
    requires
        len >= 0,
        sel.is_some() ==> sel.unwrap() < len,
    ensures
        select_down(sel, len).is_some() ==> select_down(sel, len).unwrap() < len,
        select_up(sel).is_some() ==> select_up(sel).unwrap() < len,
        select_top(sel, len).is_some() ==> select_top(sel, len).unwrap() < len,
        select_bottom(sel, len).is_some() ==> select_bottom(sel, len).unwrap() < len,
        len > 0 ==> select_top(sel, len) == Some(0usize),
        len > 0 ==> select_bottom(sel, len) == Some((len - 1) as usize),
{
}

} // verus!
