//! The walk over a body's basic blocks that finds the places where a value of
//! a marked type is destroyed implicitly.

use vstd::prelude::*;
use crate::body::{BasicBlock, Body, Place, Span, TerminatorKind};
use crate::marker::MarkerId;
use crate::types::TypeTable;

verus! {

/// Where a value is destroyed, and the declaration of the variable that held
/// it, where the place is a variable that the source names.
#[derive(Clone, Copy, Debug, PartialEq, Eq, Structural, Hash)]
pub enum DestructionSite {
    Resolved { declaration: Span, position: Span },
    Unresolved { position: Span },
}

/// One implicit destruction of a value of a marked type.
#[derive(Clone, Copy, Debug, PartialEq, Eq, Structural, Hash)]
pub struct Finding {
    /// The index of the basic block whose terminator destroys the value.
    pub block: usize,
    pub site: DestructionSite,
    /// The type of the destroyed place, by its index in the type table.
    pub ty: usize,
}

impl DestructionSite {
    /// The source position of the terminator that destroys the value.
    pub open spec fn at(self) -> Span {
        match self {
            DestructionSite::Resolved { position, .. } => position,
            DestructionSite::Unresolved { position } => position,
        }
    }

    pub fn position(&self) -> (p: Span)
        ensures
            p == self.at(),
    {
        match self {
            DestructionSite::Resolved { position, .. } => *position,
            DestructionSite::Unresolved { position } => *position,
        }
    }
}

impl BasicBlock {
    /// The source position of the block's terminator, where it has one.
    pub open spec fn terminator_span(&self) -> Span
        recommends
            self.terminator is Some,
    {
        self.terminator->0.span
    }
}

impl Body {
    /// `place` is a variable that the source names: a declared local, with
    /// no step from it, that is no temporary.
    pub open spec fn names_variable(&self, place: Place) -> bool {
        &&& place.is_local()
        &&& place.local < self.local_decls@.len()
        &&& self.local_decls@[place.local as int].named
    }

    /// The site of a destruction of `place` at `position`: resolved to the
    /// declaration of the variable where the place is a named variable,
    /// unresolved otherwise (a temporary, a field, what a reference points
    /// to, an undeclared local).
    pub open spec fn site_of(&self, place: Place, position: Span) -> DestructionSite {
        if self.names_variable(place) {
            DestructionSite::Resolved {
                declaration: self.local_decls@[place.local as int].span,
                position,
            }
        } else {
            DestructionSite::Unresolved { position }
        }
    }

    /// What block `i` contributes: a finding where the block is not a cleanup
    /// block, its terminator destroys a place, the marker is present and the
    /// place's type is marked; nothing otherwise.
    pub open spec fn finding_at(
        &self,
        types: &TypeTable,
        marker: Option<MarkerId>,
        i: int,
    ) -> Option<Finding>
        recommends
            0 <= i < self.basic_blocks@.len(),
    {
        let block = self.basic_blocks@[i];
        if block.drops_live() && marker is Some && types.marked(
            self.place_ty(block.dropped()->0) as int,
            marker->0,
        ) {
            Some(
                Finding {
                    block: i as usize,
                    site: self.site_of(block.dropped()->0, block.terminator_span()),
                    ty: self.place_ty(block.dropped()->0),
                },
            )
        } else {
            None
        }
    }

    /// The findings of the first `n` blocks, in the order of the blocks.
    pub open spec fn findings_upto(
        &self,
        types: &TypeTable,
        marker: Option<MarkerId>,
        n: nat,
    ) -> Seq<Finding>
        decreases n,
    {
        if n == 0 {
            Seq::empty()
        } else {
            let before = self.findings_upto(types, marker, (n - 1) as nat);
            match self.finding_at(types, marker, n - 1) {
                Some(finding) => before.push(finding),
                None => before,
            }
        }
    }

    /// The findings of the whole body, in the order of its blocks.
    pub open spec fn findings(&self, types: &TypeTable, marker: Option<MarkerId>) -> Seq<Finding> {
        self.findings_upto(types, marker, self.basic_blocks@.len())
    }

    /// Traces a destroyed place back to the declaration of the variable that
    /// it is, where it is one.
    pub fn resolve_site(&self, place: &Place, position: Span) -> (site: DestructionSite)
        ensures
            site == self.site_of(*place, position),
    {
        match place.as_local() {
            Some(local) => {
                if local < self.local_decls.len() && self.local_decls[local].named {
                    DestructionSite::Resolved {
                        declaration: self.local_decls[local].span,
                        position,
                    }
                } else {
                    DestructionSite::Unresolved { position }
                }
            },
            None => DestructionSite::Unresolved { position },
        }
    }

    /// Looks at block `i` alone.
    pub fn scan_block(&self, types: &TypeTable, marker: Option<MarkerId>, i: usize) -> (r: Option<
        Finding,
    >)
        requires
            i < self.basic_blocks@.len(),
            self.drops_declared(),
        ensures
            r == self.finding_at(types, marker, i as int),
    {
        let block = &self.basic_blocks[i];
        if block.is_cleanup {
            return None;
        }
        if let Some(terminator) = &block.terminator {
            if let TerminatorKind::Drop { place } = &terminator.kind {
                let ty = self.place_type(place);
                if let Some(id) = marker {
                    if types.is_marked(ty, id) {
                        return Some(
                            Finding { block: i, site: self.resolve_site(place, terminator.span), ty },
                        );
                    }
                }
            }
        }
        None
    }

    /// Walks the blocks once, in order, and returns each implicit destruction
    /// of a value of a marked type on an ordinary path. With no marker there
    /// is nothing to find.
    pub fn scan(&self, types: &TypeTable, marker: Option<MarkerId>) -> (out: Vec<Finding>)
        requires
            self.drops_declared(),
        ensures
            out@ == self.findings(types, marker),
    {
        let mut out: Vec<Finding> = Vec::new();
        let mut i: usize = 0;
        while i < self.basic_blocks.len()
            invariant
                self.drops_declared(),
                i <= self.basic_blocks@.len(),
                out@ == self.findings_upto(types, marker, i as nat),
            decreases self.basic_blocks@.len() - i,
        {
            if let Some(finding) = self.scan_block(types, marker, i) {
                out.push(finding);
            }
            i += 1;
        }
        out
    }
}

impl Body {
    /// Some block destroys, on any path, a value whose type is marked.
    pub open spec fn has_marked_drop(&self, types: &TypeTable, marker: MarkerId) -> bool {
        exists|i: int|
            0 <= i < self.basic_blocks@.len() && (#[trigger] self.basic_blocks@[i]).dropped() is Some
                && types.marked(self.place_ty(self.basic_blocks@[i].dropped()->0) as int, marker)
    }

    /// A destruction is always placed where it happens, and it is traced to
    /// a declaration exactly where the place is a variable that the source
    /// names: a temporary, or a place reached by a step, stays unresolved.
    pub proof fn lemma_site_resolves_named_variables(&self, place: Place, position: Span)
        ensures
            self.site_of(place, position).at() == position,
            self.site_of(place, position) is Resolved <==> self.names_variable(place),
            !self.names_variable(place) ==> self.site_of(place, position)
                == (DestructionSite::Unresolved { position }),
    {
    }

    /// Each finding stands for one block: the findings come in the order of
    /// their blocks, and each is what its block contributes.
    pub proof fn lemma_findings_follow_blocks(
        &self,
        types: &TypeTable,
        marker: Option<MarkerId>,
        n: nat,
    )
        requires
            n <= self.basic_blocks@.len(),
        ensures
            forall|k: int|
                0 <= k < self.findings_upto(types, marker, n).len() ==> {
                    let finding = #[trigger] self.findings_upto(types, marker, n)[k];
                    finding.block < n && self.finding_at(types, marker, finding.block as int)
                        == Some(finding)
                },
            forall|j: int, k: int|
                0 <= j < k < self.findings_upto(types, marker, n).len() ==> (
                #[trigger] self.findings_upto(types, marker, n)[j]).block < (
                #[trigger] self.findings_upto(types, marker, n)[k]).block,
        decreases n,
    {
        if n > 0 {
            assert(self.basic_blocks.len() == self.basic_blocks@.len());
            self.lemma_findings_follow_blocks(types, marker, (n - 1) as nat);
        }
    }

    /// No block is passed over: what a block contributes is among the findings.
    pub proof fn lemma_findings_cover_blocks(
        &self,
        types: &TypeTable,
        marker: Option<MarkerId>,
        n: nat,
        i: int,
    )
        requires
            0 <= i < n <= self.basic_blocks@.len(),
            self.finding_at(types, marker, i) is Some,
        ensures
            self.findings_upto(types, marker, n).contains(self.finding_at(types, marker, i)->0),
        decreases n,
    {
        let all = self.findings_upto(types, marker, n);
        let before = self.findings_upto(types, marker, (n - 1) as nat);
        if i == n - 1 {
            assert(all.last() == self.finding_at(types, marker, i)->0);
        } else {
            self.lemma_findings_cover_blocks(types, marker, (n - 1) as nat, i);
            let k = choose|k: int|
                0 <= k < before.len() && before[k] == self.finding_at(types, marker, i)->0;
            assert(all[k] == before[k]);
        }
    }

    /// Where no block contributes a finding, there are no findings.
    pub proof fn lemma_no_findings(&self, types: &TypeTable, marker: Option<MarkerId>, n: nat)
        requires
            n <= self.basic_blocks@.len(),
            forall|i: int| 0 <= i < n ==> self.finding_at(types, marker, i) is None,
        ensures
            self.findings_upto(types, marker, n) == Seq::<Finding>::empty(),
        decreases n,
    {
        if n > 0 {
            self.lemma_no_findings(types, marker, (n - 1) as nat);
        }
    }

    /// A body in which no terminator destroys a value of a marked type has no
    /// findings.
    pub proof fn lemma_unmarked_body_is_clean(&self, types: &TypeTable, marker: MarkerId)
        requires
            !self.has_marked_drop(types, marker),
        ensures
            self.findings(types, Some(marker)).len() == 0,
    {
        assert forall|i: int| 0 <= i < self.basic_blocks@.len() implies self.finding_at(
            types,
            Some(marker),
            i,
        ) is None by {
            if self.basic_blocks@[i].dropped() is Some {
                assert(!types.marked(
                    self.place_ty(self.basic_blocks@[i].dropped()->0) as int,
                    marker,
                ));
            }
        }
        self.lemma_no_findings(types, Some(marker), self.basic_blocks@.len());
    }

    /// Cleanup blocks are never looked at: a body in which values of a marked
    /// type are destroyed in cleanup blocks only has no findings.
    pub proof fn lemma_cleanup_drops_are_ignored(&self, types: &TypeTable, marker: MarkerId)
        requires
            forall|i: int|
                0 <= i < self.basic_blocks@.len() && (
                #[trigger] self.basic_blocks@[i]).dropped() is Some && types.marked(
                    self.place_ty(self.basic_blocks@[i].dropped()->0) as int,
                    marker,
                ) ==> self.basic_blocks@[i].is_cleanup,
        ensures
            self.findings(types, Some(marker)).len() == 0,
    {
        assert forall|i: int| 0 <= i < self.basic_blocks@.len() implies self.finding_at(
            types,
            Some(marker),
            i,
        ) is None by {
            if self.basic_blocks@[i].drops_live() {
                assert(!self.basic_blocks@[i].is_cleanup);
            }
        }
        self.lemma_no_findings(types, Some(marker), self.basic_blocks@.len());
    }

    /// No finding comes from a cleanup block.
    pub proof fn lemma_findings_are_live(&self, types: &TypeTable, marker: Option<MarkerId>)
        ensures
            forall|k: int|
                0 <= k < self.findings(types, marker).len() ==> {
                    let finding = #[trigger] self.findings(types, marker)[k];
                    finding.block < self.basic_blocks@.len()
                        && !self.basic_blocks@[finding.block as int].is_cleanup
                },
    {
        self.lemma_findings_follow_blocks(types, marker, self.basic_blocks@.len());
    }

    /// A body in which nothing is destroyed on an ordinary path has no
    /// findings, whatever the marker.
    pub proof fn lemma_no_live_drop_is_clean(&self, types: &TypeTable, marker: Option<MarkerId>)
        requires
            !self.has_live_drop(),
        ensures
            self.findings(types, marker).len() == 0,
    {
        assert forall|i: int| 0 <= i < self.basic_blocks@.len() implies self.finding_at(
            types,
            marker,
            i,
        ) is None by {
            assert(!self.basic_blocks@[i].drops_live());
        }
        self.lemma_no_findings(types, marker, self.basic_blocks@.len());
    }

    /// Without a marker there are no findings, whatever the body holds.
    pub proof fn lemma_absent_marker_is_clean(&self, types: &TypeTable)
        ensures
            self.findings(types, None).len() == 0,
    {
        self.lemma_no_findings(types, None, self.basic_blocks@.len());
    }

    /// Two walks over one body, with the same types and marker, give the same
    /// findings in the same order.
    pub proof fn lemma_scan_repeats(
        &self,
        types: &TypeTable,
        marker: Option<MarkerId>,
        first: Seq<Finding>,
        second: Seq<Finding>,
    )
        requires
            first == self.findings(types, marker),
            second == self.findings(types, marker),
        ensures
            first == second,
    {
    }
}

} // verus!
