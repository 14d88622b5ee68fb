//! The analysis as its host sees it: one value for the session, handed one
//! body after the other.

use vstd::prelude::*;
use crate::body::{enclosing_mir, Body, BodyOwnerKind};
use crate::diagnostic::{diagnostic_for, emit, Diagnostic, Severity};
use crate::marker::{MarkerCell, MarkerId};
use crate::scan::Finding;
use crate::types::TypeTable;

verus! {

/// `out` holds one diagnostic for each finding, in the order of the findings.
pub open spec fn reports(out: Seq<Diagnostic>, findings: Seq<Finding>) -> bool {
    &&& out.len() == findings.len()
    &&& forall|k: int| 0 <= k < out.len() ==> (#[trigger] out[k])@ == diagnostic_for(findings[k].site)
}

/// Whether a body of an owner of kind `kind` gives the analysis any place to
/// judge: the owner is a function, a closure or a constant, and some block
/// destroys a value on an ordinary path. Only then is the marker asked for.
pub open spec fn asks_for_marker(kind: BodyOwnerKind, mir: &Body) -> bool {
    kind.analysed() && mir.has_live_drop()
}

/// Builds the diagnostic of each finding.
pub fn report(findings: &Vec<Finding>) -> (out: Vec<Diagnostic>)
    ensures
        reports(out@, findings@),
{
    let mut out: Vec<Diagnostic> = Vec::new();
    let mut k: usize = 0;
    while k < findings.len()
        invariant
            k <= findings@.len(),
            out@.len() == k,
            forall|j: int| 0 <= j < k ==> (#[trigger] out@[j])@ == diagnostic_for(findings@[j].site),
        decreases findings@.len() - k,
    {
        out.push(emit(&findings[k].site));
        k += 1;
    }
    out
}

/// The analysis: it warns where a value of a marked type is destroyed
/// without having been consumed. One value serves a whole session and keeps
/// the marker between bodies.
#[derive(Debug)]
pub struct DropLinearType {
    marker: MarkerCell,
}

impl DropLinearType {
    /// What the session knows of the marker: `None` before the lookup,
    /// `Some(found)` after it, where `found` is the marker or its absence.
    pub closed spec fn marker_state(&self) -> Option<Option<MarkerId>> {
        self.marker.state()
    }

    /// The analysis at the start of a session, with the marker not yet
    /// looked up.
    pub fn new() -> (lint: DropLinearType)
        ensures
            lint.marker_state() is None,
    {
        DropLinearType { marker: MarkerCell::new() }
    }

    /// What the session knows of the marker.
    pub fn marker(&self) -> (r: Option<Option<MarkerId>>)
        ensures
            r == self.marker_state(),
    {
        self.marker.get()
    }

    /// Returns the marker of the session, looking it up with `lookup` where
    /// no body has had it looked up yet. After the first lookup `lookup` is
    /// not called, and the answer stays what it was.
    pub fn resolve_marker<F: FnOnce() -> Option<MarkerId>>(&mut self, lookup: F) -> (marker: Option<
        MarkerId,
    >)
        requires
            old(self).marker_state() is None ==> call_requires(lookup, ()),
        ensures
            final(self).marker_state() == Some(marker),
            old(self).marker_state() is Some ==> final(self).marker_state() == old(
                self,
            ).marker_state(),
            old(self).marker_state() is None ==> call_ensures(lookup, (), marker),
    {
        self.marker.resolve_marker(lookup)
    }

    /// The severity of every diagnostic of the analysis.
    pub fn default_severity() -> (severity: Severity)
        ensures
            severity == Severity::Warning,
    {
        Severity::Warning
    }

    /// Returns the marker by which the body `mir` of an owner of kind `kind`
    /// is to be judged. A body that gives nothing to judge has none, and the
    /// marker is not asked for on its account. For any other body the marker
    /// of the session is returned, looked up with `lookup` unless an earlier
    /// body has had it looked up already.
    pub fn marker_for<F: FnOnce() -> Option<MarkerId>>(
        &mut self,
        kind: BodyOwnerKind,
        mir: &Body,
        lookup: F,
    ) -> (marker: Option<MarkerId>)
        requires
            asks_for_marker(kind, mir) && old(self).marker_state() is None ==> call_requires(
                lookup,
                (),
            ),
        ensures
            !asks_for_marker(kind, mir) ==> marker is None && final(self).marker_state() == old(
                self,
            ).marker_state(),
            asks_for_marker(kind, mir) ==> final(self).marker_state() == Some(marker),
            asks_for_marker(kind, mir) && old(self).marker_state() is Some
                ==> final(self).marker_state() == old(self).marker_state(),
            asks_for_marker(kind, mir) && old(self).marker_state() is None ==> call_ensures(
                lookup,
                (),
                marker,
            ),
    {
        let Some(mir) = enclosing_mir(kind, mir) else {
            return None;
        };
        if !mir.drops_on_ordinary_path() {
            return None;
        }
        self.marker.resolve_marker(lookup)
    }

    /// Analyses one body and returns its warnings, in the order of the blocks
    /// that give rise to them.
    ///
    /// A body that does not belong to a function, a closure or a constant, or
    /// in which no value is destroyed on an ordinary path, gives no warning
    /// and leaves the marker alone. For any other body the marker is looked
    /// up with `lookup`, unless an earlier body has had it looked up already;
    /// with the marker absent there is no warning.
    pub fn check_body<F: FnOnce() -> Option<MarkerId>>(
        &mut self,
        kind: BodyOwnerKind,
        mir: &Body,
        types: &TypeTable,
        lookup: F,
    ) -> (out: Vec<Diagnostic>)
        requires
            kind.analysed() ==> mir.drops_declared(),
            asks_for_marker(kind, mir) && old(self).marker_state() is None ==> call_requires(
                lookup,
                (),
            ),
        ensures
            !asks_for_marker(kind, mir) ==> out@.len() == 0 && final(self).marker_state() == old(
                self,
            ).marker_state(),
            asks_for_marker(kind, mir) ==> {
                &&& final(self).marker_state() is Some
                &&& old(self).marker_state() is Some ==> final(self).marker_state() == old(
                    self,
                ).marker_state()
                &&& old(self).marker_state() is None ==> call_ensures(
                    lookup,
                    (),
                    final(self).marker_state()->0,
                )
                &&& reports(out@, mir.findings(types, final(self).marker_state()->0))
            },
    {
        match self.marker_for(kind, mir, lookup) {
            Some(marker) => report(&mir.scan(types, Some(marker))),
            None => {
                proof {
                    mir.lemma_absent_marker_is_clean(types);
                }
                Vec::new()
            },
        }
    }
}

} // verus!
