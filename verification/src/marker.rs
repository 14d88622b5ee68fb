//! The identity of the marker interface, and the cell that remembers, for the
//! length of a session, what looking it up gave.

use vstd::prelude::*;

verus! {

/// Handle of a definition within one compilation session.
#[derive(Clone, Copy, Debug, PartialEq, Eq, Structural, Hash)]
pub struct MarkerId {
    pub krate: u32,
    pub index: u32,
}

/// The crate that defines the marker interface.
pub const MARKER_CRATE: &'static str = "nearly_linear";

/// The name of the marker interface in that crate.
pub const MARKER_NAME: &'static str = "DropWarning";

/// The path under which the marker interface is looked up: the crate, then
/// the name.
pub fn marker_path() -> (path: [&'static str; 2])
    ensures
        path@ == seq![MARKER_CRATE, MARKER_NAME],
{
    [MARKER_CRATE, MARKER_NAME]
}

/// What a cell holds once the answer `found` has reached it: what it held
/// before, if it held anything, else `found`.
pub open spec fn settle(state: Option<Option<MarkerId>>, found: Option<MarkerId>) -> Option<
    Option<MarkerId>,
> {
    match state {
        Some(kept) => Some(kept),
        None => Some(found),
    }
}

/// A cell that is filled once. It starts empty; the first answer fills it,
/// also where the answer is that the marker is absent, and nothing changes it
/// after that. Filling takes the cell by `&mut`, so two fills cannot overlap.
#[derive(Debug)]
pub struct MarkerCell {
    slot: Option<Option<MarkerId>>,
}

impl MarkerCell {
    /// What the cell holds: `None` while it is empty, `Some(found)` once the
    /// lookup has been made, where `found` is the marker or its absence.
    pub closed spec fn state(&self) -> Option<Option<MarkerId>> {
        self.slot
    }

    /// An empty cell.
    pub fn new() -> (cell: MarkerCell)
        ensures
            cell.state() is None,
    {
        MarkerCell { slot: None }
    }

    /// What the cell holds.
    pub fn get(&self) -> (r: Option<Option<MarkerId>>)
        ensures
            r == self.state(),
    {
        self.slot
    }

    /// Whether the lookup has been made.
    pub fn is_resolved(&self) -> (r: bool)
        ensures
            r == self.state() is Some,
    {
        self.slot.is_some()
    }

    /// Hands the cell an answer. An empty cell keeps it; a filled cell keeps
    /// what it has. Returns what the cell holds afterwards.
    pub fn supply(&mut self, found: Option<MarkerId>) -> (kept: Option<MarkerId>)
        ensures
            final(self).state() == settle(old(self).state(), found),
            final(self).state() == Some(kept),
    {
        match self.slot {
            Some(kept) => kept,
            None => {
                self.slot = Some(found);
                found
            },
        }
    }

    /// Returns the marker, looking it up with `lookup` where the cell is
    /// empty. A filled cell answers by itself: `lookup` need not even be
    /// callable then, and is not called.
    pub fn resolve_marker<F: FnOnce() -> Option<MarkerId>>(&mut self, lookup: F) -> (marker: Option<
        MarkerId,
    >)
        requires
            old(self).state() is None ==> call_requires(lookup, ()),
        ensures
            final(self).state() == Some(marker),
            old(self).state() is Some ==> final(self).state() == old(self).state(),
            old(self).state() is None ==> call_ensures(lookup, (), marker),
    {
        match self.slot {
            Some(kept) => kept,
            None => {
                let found = lookup();
                self.supply(found)
            },
        }
    }
}

/// Once an answer has reached a cell, no later answer changes what it holds.
pub proof fn lemma_first_answer_stays(
    state: Option<Option<MarkerId>>,
    first: Option<MarkerId>,
    later: Option<MarkerId>,
)
    ensures
        settle(state, first) is Some,
        settle(settle(state, first), later) == settle(state, first),
        state is None ==> settle(settle(state, first), later) == Some(first),
{
}

} // verus!
