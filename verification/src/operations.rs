//! Operations hub state — the list of runnable operations (Pack, Stash,
//! Rinse, Raid) plus the project the next operation will target.

use vstd::prelude::*;

verus! {

/// Available operations launched from the Operations hub.
#[derive(Debug, Clone, Copy, PartialEq, Eq, Structural)]
pub enum OperationKind {
    /// Package a project into the den (`tar.zst` + age archive).
    Pack,
    /// Move secrets out of a project into age archives.
    Stash,
    /// Clean build/runtime junk from a project.
    Rinse,
    /// Run the full pipeline: stash → rinse → pack → move (live flow).
    Raid,
}

impl Default for OperationKind {
    fn default() -> (k: OperationKind)
        ensures
            k == OperationKind::Pack,
    {
        OperationKind::Pack
    }
}

/// Ordered registry of every operation, in list order.
pub const ALL_OPERATIONS: [OperationKind; 4] = [
    OperationKind::Pack,
    OperationKind::Stash,
    OperationKind::Rinse,
    OperationKind::Raid,
];

/// Position of an operation in list order.
pub open spec fn op_index(k: OperationKind) -> int {
    match k {
        OperationKind::Pack => 0,
        OperationKind::Stash => 1,
        OperationKind::Rinse => 2,
        OperationKind::Raid => 3,
    }
}

/// The operation at a list position (positions taken modulo 4).
pub open spec fn op_at(i: int) -> OperationKind {
    let k = i % 4;
    if k == 0 {
        OperationKind::Pack
    } else if k == 1 {
        OperationKind::Stash
    } else if k == 2 {
        OperationKind::Rinse
    } else {
        OperationKind::Raid
    }
}

/// Display label of an operation.
pub open spec fn op_label(k: OperationKind) -> Seq<char> {
    match k {
        OperationKind::Pack => "Pack"@,
        OperationKind::Stash => "Stash"@,
        OperationKind::Rinse => "Rinse"@,
        OperationKind::Raid => "Raid"@,
    }
}

/// Shortcut key of an operation.
pub open spec fn op_key(k: OperationKind) -> char {
    match k {
        OperationKind::Pack => 'p',
        OperationKind::Stash => 's',
        OperationKind::Rinse => 'r',
        OperationKind::Raid => 'd',
    }
}

/// The operation whose shortcut is `c`, if any.
pub open spec fn op_from_key(c: char) -> Option<OperationKind> {
    if c == 'p' {
        Some(OperationKind::Pack)
    } else if c == 's' {
        Some(OperationKind::Stash)
    } else if c == 'r' {
        Some(OperationKind::Rinse)
    } else if c == 'd' {
        Some(OperationKind::Raid)
    } else {
        None
    }
}

/// Stage name owning an operation's real flow (`None` once the flow exists).
pub open spec fn op_planned_stage(k: OperationKind) -> Option<Seq<char>> {
    match k {
        OperationKind::Pack => Some("T-02"@),
        OperationKind::Stash => Some("T-03"@),
        OperationKind::Rinse => Some("T-04"@),
        OperationKind::Raid => None,
    }
}

impl OperationKind {
    /// Display label for the operations list.
    pub fn label(self) -> (s: &'static str)
        ensures
            s@ == op_label(self),
    {
        match self {
            OperationKind::Pack => "Pack",
            OperationKind::Stash => "Stash",
            OperationKind::Rinse => "Rinse",
            OperationKind::Raid => "Raid",
        }
    }

    /// One-key shortcut that jumps the list selection to this operation.
    pub fn key(self) -> (c: char)
        ensures
            c == op_key(self),
    {
        match self {
            OperationKind::Pack => 'p',
            OperationKind::Stash => 's',
            OperationKind::Rinse => 'r',
            OperationKind::Raid => 'd',
        }
    }

    /// Inverse of [`Self::key`]: the first operation in list order bound to
    /// `c`, if any.
    pub fn from_key(c: char) -> (r: Option<OperationKind>)
        ensures
            r == op_from_key(c),
    {
        let mut i: usize = 0;
        while i < 4
            invariant
                0 <= i <= 4,
                forall|j: int| 0 <= j < i ==> op_key(#[trigger] op_at(j)) != c,
            decreases 4 - i,
        {
            let k = ALL_OPERATIONS[i];
            assert(k == op_at(i as int));
            if k.key() == c {
                return Some(k);
            }
            i = i + 1;
        }
        assert(op_key(op_at(0)) != c && op_key(op_at(1)) != c);
        assert(op_key(op_at(2)) != c && op_key(op_at(3)) != c);
        None
    }

    /// Next operation in list order (cycles back to the first).
    pub fn next(self) -> (k: OperationKind)
        ensures
            k == op_at(op_index(self) + 1),
    {
        match self {
            OperationKind::Pack => OperationKind::Stash,
            OperationKind::Stash => OperationKind::Rinse,
            OperationKind::Rinse => OperationKind::Raid,
            OperationKind::Raid => OperationKind::Pack,
        }
    }

    /// Previous operation in list order (cycles back to the last).
    pub fn prev(self) -> (k: OperationKind)
        ensures
            k == op_at(op_index(self) + 3),
    {
        match self {
            OperationKind::Pack => OperationKind::Raid,
            OperationKind::Stash => OperationKind::Pack,
            OperationKind::Rinse => OperationKind::Stash,
            OperationKind::Raid => OperationKind::Rinse,
        }
    }

    /// Future stage that owns this operation's real flow. `None` when the
    /// flow already exists (Raid).
    pub fn planned_stage(self) -> (r: Option<&'static str>)
        ensures
            r.is_some() == op_planned_stage(self).is_some(),
            r.is_some() ==> r.unwrap()@ == op_planned_stage(self).unwrap(),
    {
        match self {
            OperationKind::Pack => Some("T-02"),
            OperationKind::Stash => Some("T-03"),
            OperationKind::Rinse => Some("T-04"),
            OperationKind::Raid => None,
        }
    }
}

/// `ALL_OPERATIONS` holds each operation once, at its list position.
pub proof fn lemma_all_operations_order()
    ensures
        ALL_OPERATIONS@.len() == 4,
        forall|i: int| 0 <= i < 4 ==> #[trigger] ALL_OPERATIONS@[i] == op_at(i),
        forall|k: OperationKind| ALL_OPERATIONS@[#[trigger] op_index(k)] == k,
{
    assert(ALL_OPERATIONS@[0] == OperationKind::Pack);
    assert(ALL_OPERATIONS@[1] == OperationKind::Stash);
    assert(ALL_OPERATIONS@[2] == OperationKind::Rinse);
    assert(ALL_OPERATIONS@[3] == OperationKind::Raid);
}

/// The shortcut keys are pairwise distinct and `from_key` inverts `key`;
/// labels are pairwise distinct too.
pub proof fn lemma_operation_keys_invert(k: OperationKind, l: OperationKind)
    ensures
        op_from_key(op_key(k)) == Some(k),
        k != l ==> op_key(k) != op_key(l),
        k != l ==> op_label(k) != op_label(l),
{
    reveal_strlit("Pack");
    reveal_strlit("Stash");
    reveal_strlit("Rinse");
    reveal_strlit("Raid");
    assert("Pack"@[0] != "Stash"@[0]);
    assert("Pack"@[0] != "Rinse"@[0]);
    assert("Pack"@[0] != "Raid"@[0]);
    assert("Stash"@[0] != "Rinse"@[0]);
    assert("Stash"@[0] != "Raid"@[0]);
    assert("Rinse"@[1] != "Raid"@[1]);
}

/// Stepping forward then back (or back then forward) returns to the same
/// operation; four forward steps cycle through the whole list.
pub proof fn lemma_operation_cycle(k: OperationKind)
    ensures
        op_at(op_index(op_at(op_index(k) + 1)) + 3) == k,
        op_at(op_index(op_at(op_index(k) + 3)) + 1) == k,
        op_at(op_index(k) + 4) == k,
{
}

/// Selection + project for the Operations hub screen.
#[derive(Debug)]
pub struct OperationsScreenState {
    /// Operation currently highlighted in the list.
    pub selected: OperationKind,
    /// Display copy of the sniff-selected project (refreshed each render).
    pub project: Option<String>,
    /// Operation whose real flow is still a stub; shown as a notice until
    /// dismissed with Esc / Enter.
    pub stub: Option<OperationKind>,
}

impl Default for OperationsScreenState {
    fn default() -> (s: OperationsScreenState)
        ensures
            s.selected == OperationKind::Pack,
            s.project.is_none(),
            s.stub.is_none(),
    {
        OperationsScreenState { selected: OperationKind::Pack, project: None, stub: None }
    }
}

impl OperationsScreenState {
    /// Move the selection to the next operation (cycles).
    pub fn select_next(&mut self)
        ensures
            final(self).selected == op_at(op_index(old(self).selected) + 1),
            final(self).project == old(self).project,
            final(self).stub == old(self).stub,
    {
        self.selected = self.selected.next();
    }

    /// Move the selection to the previous operation (cycles).
    pub fn select_previous(&mut self)
        ensures
            final(self).selected == op_at(op_index(old(self).selected) + 3),
            final(self).project == old(self).project,
            final(self).stub == old(self).stub,
    {
        self.selected = self.selected.prev();
    }

    /// Move the selection to the first operation.
    pub fn select_first(&mut self)
        ensures
            final(self).selected == OperationKind::Pack,
            final(self).project == old(self).project,
            final(self).stub == old(self).stub,
    {
        self.selected = ALL_OPERATIONS[0];
    }

    /// Move the selection to the last operation.
    pub fn select_last(&mut self)
        ensures
            final(self).selected == OperationKind::Raid,
            final(self).project == old(self).project,
            final(self).stub == old(self).stub,
    {
        self.selected = ALL_OPERATIONS[ALL_OPERATIONS.len() - 1];
    }

    /// Align the displayed project with the sniff table selection.
    pub fn refresh_project(&mut self, project: Option<&str>)
        ensures
            final(self).project.is_some() == project.is_some(),
            project.is_some() ==> final(self).project.unwrap()@ == project.unwrap()@,
            final(self).selected == old(self).selected,
            final(self).stub == old(self).stub,
    {
        self.project = match project {
            Some(p) => Some(p.to_owned()),
            None => None,
        };
    }

    /// Open `kind` in its stub (placeholder) form; activating it only shows
    /// a notice until its real flow lands.
    pub fn open_stub(&mut self, kind: OperationKind)
        ensures
            final(self).stub == Some(kind),
            final(self).selected == old(self).selected,
            final(self).project == old(self).project,
    {
        self.stub = Some(kind);
    }
}

} // verus!
