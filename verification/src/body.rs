//! A lowered function body: basic blocks, each ending in one terminator, and
//! the declarations of its locals.

use vstd::prelude::*;

verus! {

/// A range of source text, in bytes from the start of the compilation's
/// sources, and the expansion that the text belongs to.
#[derive(Clone, Copy, Debug, PartialEq, Eq, Structural, Hash)]
pub struct Span {
    pub lo: u32,
    pub hi: u32,
    /// Tells apart spans of one range that come from different expansions.
    /// The numbers are the caller's.
    pub ctxt: u32,
}

/// The declaration of a local: its type, by its index in the type table,
/// where it was declared, and whether it is a variable that the source names
/// or a temporary that lowering made.
#[derive(Clone, Copy, Debug, PartialEq, Eq, Structural, Hash)]
pub struct LocalDecl {
    pub ty: usize,
    pub span: Span,
    pub named: bool,
}

/// A storage location: a local, and the steps from it to the location (a
/// field, a dereference, an index). `projection` holds, for each step, the
/// type of the location that the step arrives at.
#[derive(Debug)]
pub struct Place {
    pub local: usize,
    pub projection: Vec<usize>,
}

/// How a basic block ends.
#[derive(Debug)]
pub enum TerminatorKind {
    Goto,
    Branch,
    Call,
    /// The value at `place` is destroyed as control leaves its scope.
    Drop { place: Place },
    Return,
    UnwindResume,
    Unreachable,
    /// Any other way for a block to end.
    Other,
}

#[derive(Debug)]
pub struct Terminator {
    pub kind: TerminatorKind,
    pub span: Span,
}

/// A basic block. Its statements play no part here and are left out.
#[derive(Debug)]
pub struct BasicBlock {
    /// The block runs only while a panic unwinds the stack.
    pub is_cleanup: bool,
    /// `None` while the body is under construction.
    pub terminator: Option<Terminator>,
}

#[derive(Debug)]
pub struct Body {
    pub basic_blocks: Vec<BasicBlock>,
    pub local_decls: Vec<LocalDecl>,
}

/// What a body belongs to.
#[derive(Clone, Copy, Debug, PartialEq, Eq, Structural, Hash)]
pub enum BodyOwnerKind {
    Fn,
    Closure,
    Const,
    Static,
    GlobalAsm,
}

impl BodyOwnerKind {
    /// The owner's body is one that the analysis looks at: that of a
    /// function, a closure or a constant.
    pub open spec fn analysed(self) -> bool {
        self is Fn || self is Closure || self is Const
    }

    pub fn is_analysed(self) -> (r: bool)
        ensures
            r == self.analysed(),
    {
        match self {
            BodyOwnerKind::Fn | BodyOwnerKind::Closure | BodyOwnerKind::Const => true,
            _ => false,
        }
    }

    pub open spec fn fn_or_closure(self) -> bool {
        self is Fn || self is Closure
    }

    pub fn is_fn_or_closure(self) -> (r: bool)
        ensures
            r == self.fn_or_closure(),
    {
        match self {
            BodyOwnerKind::Fn | BodyOwnerKind::Closure => true,
            _ => false,
        }
    }
}

impl Place {
    /// The place is a plain local, with no step from it.
    pub open spec fn is_local(&self) -> bool {
        self.projection@.len() == 0
    }

    /// The local, where the place is one.
    pub fn as_local(&self) -> (r: Option<usize>)
        ensures
            r == if self.is_local() { Some(self.local) } else { None },
    {
        if self.projection.len() == 0 {
            Some(self.local)
        } else {
            None
        }
    }
}

impl BasicBlock {
    /// The place that the block's terminator destroys, if it destroys one.
    pub open spec fn dropped(&self) -> Option<Place> {
        match self.terminator {
            Some(Terminator { kind: TerminatorKind::Drop { place }, .. }) => Some(place),
            _ => None,
        }
    }

    /// The block destroys a value on an ordinary path, not while unwinding.
    pub open spec fn drops_live(&self) -> bool {
        !self.is_cleanup && self.dropped() is Some
    }
}

impl Body {
    /// Each place that is destroyed on an ordinary path starts at a declared
    /// local.
    pub open spec fn drops_declared(&self) -> bool {
        forall|i: int|
            0 <= i < self.basic_blocks@.len() && (#[trigger] self.basic_blocks@[i]).drops_live()
                ==> self.basic_blocks@[i].dropped()->0.local < self.local_decls@.len()
    }

    /// Some block destroys a value on an ordinary path.
    pub open spec fn has_live_drop(&self) -> bool {
        exists|i: int|
            0 <= i < self.basic_blocks@.len() && (#[trigger] self.basic_blocks@[i]).drops_live()
    }

    /// The type of `place` in this body: that of its local where it is one,
    /// else the type that its last step arrives at.
    pub open spec fn place_ty(&self, place: Place) -> usize
        recommends
            place.local < self.local_decls@.len(),
    {
        if place.is_local() {
            self.local_decls@[place.local as int].ty
        } else {
            place.projection@.last()
        }
    }

    /// Computes the type of `place`.
    pub fn place_type(&self, place: &Place) -> (ty: usize)
        requires
            place.local < self.local_decls@.len(),
        ensures
            ty == self.place_ty(*place),
    {
        let steps = place.projection.len();
        if steps == 0 {
            self.local_decls[place.local].ty
        } else {
            place.projection[steps - 1]
        }
    }

    /// Whether some block destroys a value on an ordinary path.
    pub fn drops_on_ordinary_path(&self) -> (r: bool)
        ensures
            r == self.has_live_drop(),
    {
        let mut i: usize = 0;
        while i < self.basic_blocks.len()
            invariant
                i <= self.basic_blocks@.len(),
                forall|j: int| 0 <= j < i ==> !(#[trigger] self.basic_blocks@[j]).drops_live(),
            decreases self.basic_blocks@.len() - i,
        {
            let block = &self.basic_blocks[i];
            if !block.is_cleanup {
                if let Some(terminator) = &block.terminator {
                    if let TerminatorKind::Drop { .. } = &terminator.kind {
                        return true;
                    }
                }
            }
            i += 1;
        }
        false
    }

    /// Whether each place that is destroyed on an ordinary path starts at a
    /// declared local.
    pub fn has_drops_declared(&self) -> (r: bool)
        ensures
            r == self.drops_declared(),
    {
        let mut i: usize = 0;
        while i < self.basic_blocks.len()
            invariant
                i <= self.basic_blocks@.len(),
                forall|j: int|
                    0 <= j < i && (#[trigger] self.basic_blocks@[j]).drops_live()
                        ==> self.basic_blocks@[j].dropped()->0.local < self.local_decls@.len(),
            decreases self.basic_blocks@.len() - i,
        {
            let block = &self.basic_blocks[i];
            if !block.is_cleanup {
                if let Some(terminator) = &block.terminator {
                    if let TerminatorKind::Drop { place } = &terminator.kind {
                        if place.local >= self.local_decls.len() {
                            return false;
                        }
                    }
                }
            }
            i += 1;
        }
        true
    }
}

/// The body to analyse for an owner of kind `kind`: `mir` where the owner is
/// a function, a closure or a constant, none otherwise.
pub fn enclosing_mir(kind: BodyOwnerKind, mir: &Body) -> (r: Option<&Body>)
    ensures
        r == if kind.analysed() { Some(mir) } else { None },
{
    if kind.is_analysed() {
        Some(mir)
    } else {
        None
    }
}

} // verus!
