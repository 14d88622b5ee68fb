//! The structural description of types and the predicate that decides whether
//! a type is marked, directly or through one of its fields.

use vstd::prelude::*;
use crate::marker::MarkerId;

verus! {

/// What a type looks like from the outside: a nominal composite with its
/// variants and their field types, or anything else.
#[derive(Debug)]
pub enum Shape {
    /// A primitive, a generic parameter that was not substituted, a pointer:
    /// nothing to look into.
    Leaf,
    /// A struct, enum or union. Each variant lists the types of its fields,
    /// with the generic arguments of this instantiation already applied.
    Composite { variants: Vec<Vec<usize>> },
}

/// One type of the table: the interfaces it satisfies by itself, and its shape.
#[derive(Debug)]
pub struct TypeEntry {
    pub implements: Vec<MarkerId>,
    pub shape: Shape,
}

/// The types of one compilation, each named by its index in `entries`.
/// An index past the end stands for a type nothing is known of: a leaf that
/// satisfies no interface.
#[derive(Debug)]
pub struct TypeTable {
    pub entries: Vec<TypeEntry>,
}

impl TypeEntry {
    /// The type satisfies `marker` by itself.
    pub open spec fn satisfies(&self, marker: MarkerId) -> bool {
        self.implements@.contains(marker)
    }

    /// Some variant of the type has a field of type `field`.
    pub open spec fn has_field(&self, field: int) -> bool {
        match self.shape {
            Shape::Leaf => false,
            Shape::Composite { variants } => exists|v: int, k: int|
                0 <= v < variants@.len() && 0 <= k < variants@[v]@.len()
                    && (#[trigger] variants@[v]@[k]) == field,
        }
    }

    /// The field at position `k` of variant `v` is a field of the type.
    pub proof fn lemma_field_at(&self, v: int, k: int)
        requires
            self.shape is Composite,
            0 <= v < self.shape->variants@.len(),
            0 <= k < self.shape->variants@[v]@.len(),
        ensures
            self.has_field(self.shape->variants@[v]@[k] as int),
    {
        let variants = self.shape->variants;
        let field = variants@[v]@[k] as int;
        assert(0 <= v < variants@.len() && 0 <= k < variants@[v]@.len() && variants@[v]@[k]
            == field);
    }

    /// Whether `marker` is among the interfaces that the type satisfies by itself.
    pub fn implements_marker(&self, marker: MarkerId) -> (r: bool)
        ensures
            r == self.satisfies(marker),
    {
        let mut i: usize = 0;
        while i < self.implements.len()
            invariant
                i <= self.implements@.len(),
                forall|j: int| 0 <= j < i ==> self.implements@[j] != marker,
            decreases self.implements@.len() - i,
        {
            if self.implements[i] == marker {
                return true;
            }
            i += 1;
        }
        false
    }
}

/// The number of entries of `visited` that are still `false`.
spec fn unvisited(visited: Seq<bool>) -> nat
    decreases visited.len(),
{
    if visited.len() == 0 {
        0
    } else {
        unvisited(visited.drop_last()) + if visited.last() { 0nat } else { 1nat }
    }
}

proof fn lemma_unvisited_after_visit(visited: Seq<bool>, i: int)
    requires
        0 <= i < visited.len(),
        !visited[i],
    ensures
        unvisited(visited.update(i, true)) + 1 == unvisited(visited),
    decreases visited.len(),
{
    let after = visited.update(i, true);
    if i == visited.len() - 1 {
        assert(after.drop_last() =~= visited.drop_last());
    } else {
        assert(after.drop_last() =~= visited.drop_last().update(i, true));
        lemma_unvisited_after_visit(visited.drop_last(), i);
    }
}

proof fn lemma_unvisited_shrinks(before: Seq<bool>, after: Seq<bool>)
    requires
        before.len() == after.len(),
        forall|i: int| 0 <= i < before.len() && before[i] ==> after[i],
    ensures
        unvisited(after) <= unvisited(before),
    decreases before.len(),
{
    if before.len() > 0 {
        lemma_unvisited_shrinks(before.drop_last(), after.drop_last());
    }
}

impl TypeTable {
    /// The type `ty` satisfies `marker` by itself.
    pub open spec fn directly_marked(&self, ty: int, marker: MarkerId) -> bool {
        0 <= ty < self.entries@.len() && self.entries@[ty].satisfies(marker)
    }

    /// The type `ty` is a composite with a field of type `field`.
    pub open spec fn has_field(&self, ty: int, field: int) -> bool {
        0 <= ty < self.entries@.len() && self.entries@[ty].has_field(field)
    }

    /// `target` is found `depth` levels below `ty`: it is `ty` itself at depth
    /// 0, the type of one of its fields at depth 1, and so on.
    pub open spec fn contains_at(&self, ty: int, target: int, depth: nat) -> bool
        decreases depth,
    {
        if depth == 0 {
            target == ty
        } else {
            exists|mid: int| #[trigger]
                self.has_field(ty, mid) && self.contains_at(mid, target, (depth - 1) as nat)
        }
    }

    /// The type `ty` is marked: it satisfies `marker` itself, or a field at
    /// some nesting depth does.
    pub open spec fn marked(&self, ty: int, marker: MarkerId) -> bool {
        exists|target: int, depth: nat| #[trigger]
            self.contains_at(ty, target, depth) && self.directly_marked(target, marker)
    }

    /// Nothing is left to find from `ty`: it does not satisfy `marker`, and
    /// each of its fields that the table knows has been visited.
    spec fn settled(&self, ty: int, marker: MarkerId, visited: Seq<bool>) -> bool {
        &&& !self.directly_marked(ty, marker)
        &&& forall|field: int| #[trigger]
            self.has_field(ty, field) && 0 <= field < visited.len() ==> visited[field]
    }

    /// Every visited type that is not in `open` is settled.
    spec fn settled_outside(&self, marker: MarkerId, visited: Seq<bool>, open: Set<int>) -> bool {
        forall|t: int|
            0 <= t < visited.len() && #[trigger] visited[t] && !open.contains(t) ==> self.settled(
                t,
                marker,
                visited,
            )
    }

    /// A field that is marked marks the type that holds it.
    pub proof fn lemma_marked_through_field(&self, ty: int, field: int, marker: MarkerId)
        requires
            self.has_field(ty, field),
            self.marked(field, marker),
        ensures
            self.marked(ty, marker),
    {
        let (target, depth) = choose|target: int, depth: nat| #[trigger]
            self.contains_at(field, target, depth) && self.directly_marked(target, marker);
        assert(self.contains_at(ty, target, depth + 1));
    }

    /// A type is marked exactly when it satisfies the marker itself or one of
    /// its fields is marked.
    pub proof fn lemma_marked_unfolds(&self, ty: int, marker: MarkerId)
        ensures
            self.marked(ty, marker) <==> self.directly_marked(ty, marker) || exists|field: int|
                #[trigger] self.has_field(ty, field) && self.marked(field, marker),
    {
        if self.marked(ty, marker) {
            let (target, depth) = choose|target: int, depth: nat| #[trigger]
                self.contains_at(ty, target, depth) && self.directly_marked(target, marker);
            if depth > 0 {
                let mid = choose|mid: int| #[trigger]
                    self.has_field(ty, mid) && self.contains_at(mid, target, (depth - 1) as nat);
                assert(self.marked(mid, marker));
            }
        }
        if self.directly_marked(ty, marker) {
            assert(self.contains_at(ty, ty, 0));
        }
        if exists|field: int| #[trigger] self.has_field(ty, field) && self.marked(field, marker) {
            let field = choose|field: int| #[trigger]
                self.has_field(ty, field) && self.marked(field, marker);
            self.lemma_marked_through_field(ty, field, marker);
        }
    }

    /// A type with a field, at any nesting depth, whose type satisfies the
    /// marker by itself is marked.
    pub proof fn lemma_nested_field_marks(&self, ty: int, field: int, depth: nat, marker: MarkerId)
        requires
            depth >= 1,
            self.contains_at(ty, field, depth),
            self.directly_marked(field, marker),
        ensures
            self.marked(ty, marker),
    {
    }

    /// A type that does not satisfy the marker by itself, and none of whose
    /// fields at any nesting depth does, is not marked.
    pub proof fn lemma_unmarked_without_marked_field(&self, ty: int, marker: MarkerId)
        requires
            !self.directly_marked(ty, marker),
            forall|field: int, depth: nat|
                depth >= 1 && #[trigger] self.contains_at(ty, field, depth)
                    ==> !self.directly_marked(field, marker),
        ensures
            !self.marked(ty, marker),
    {
        assert forall|target: int, depth: nat| #[trigger]
            self.contains_at(ty, target, depth) implies !self.directly_marked(target, marker) by {
            if depth == 0 {
                assert(target == ty);
            }
        }
    }

    /// A type without fields (a leaf, a composite with no variant or with
    /// empty variants, a type the table does not know) is marked exactly when
    /// it satisfies the marker by itself.
    pub proof fn lemma_fieldless_marked_iff_direct(&self, ty: int, marker: MarkerId)
        requires
            forall|field: int| !self.has_field(ty, field),
        ensures
            self.marked(ty, marker) == self.directly_marked(ty, marker),
    {
        self.lemma_marked_unfolds(ty, marker);
    }

    /// Once every visited type is settled, no type below a visited one, or
    /// below one that the table does not know, satisfies the marker.
    proof fn lemma_settled_unmarked(
        &self,
        marker: MarkerId,
        visited: Seq<bool>,
        ty: int,
        target: int,
        depth: nat,
    )
        requires
            visited.len() == self.entries@.len(),
            self.settled_outside(marker, visited, Set::empty()),
            !(0 <= ty < visited.len()) || visited[ty],
            self.contains_at(ty, target, depth),
        ensures
            !self.directly_marked(target, marker),
        decreases depth,
    {
        if depth > 0 {
            let mid = choose|mid: int| #[trigger]
                self.has_field(ty, mid) && self.contains_at(mid, target, (depth - 1) as nat);
            self.lemma_settled_unmarked(marker, visited, mid, target, (depth - 1) as nat);
        }
    }

    /// Visiting more types keeps settled types settled.
    proof fn lemma_settled_stays(
        &self,
        marker: MarkerId,
        before: Seq<bool>,
        after: Seq<bool>,
        ty: int,
    )
        requires
            before.len() == after.len(),
            forall|i: int| 0 <= i < before.len() && before[i] ==> after[i],
            self.settled(ty, marker, before),
        ensures
            self.settled(ty, marker, after),
    {
    }

    /// Looks for the marker at `ty` and below it, passing by the types that
    /// `visited` already holds. `open` are the types on the way down to `ty`,
    /// whose fields are still being looked at.
    fn visit(
        &self,
        ty: usize,
        marker: MarkerId,
        visited: &mut Vec<bool>,
        Ghost(open): Ghost<Set<int>>,
    ) -> (found: bool)
        requires
            ty < self.entries@.len(),
            old(visited)@.len() == self.entries@.len(),
            !old(visited)@[ty as int],
            self.settled_outside(marker, old(visited)@, open),
            forall|t: int| open.contains(t) ==> 0 <= t < old(visited)@.len() && old(visited)@[t],
        ensures
            final(visited)@.len() == old(visited)@.len(),
            forall|t: int| 0 <= t < final(visited)@.len() && old(visited)@[t] ==> final(visited)@[t],
            found ==> self.marked(ty as int, marker),
            !found ==> final(visited)@[ty as int] && self.settled_outside(
                marker,
                final(visited)@,
                open,
            ),
        decreases unvisited(old(visited)@),
    {
        let ghost before = visited@;
        if self.entries[ty].implements_marker(marker) {
            assert(self.contains_at(ty as int, ty as int, 0));
            return true;
        }
        visited.set(ty, true);
        let ghost inner = open.insert(ty as int);
        proof {
            lemma_unvisited_after_visit(before, ty as int);
            assert forall|t: int|
                0 <= t < visited@.len() && #[trigger] visited@[t] && !inner.contains(
                    t,
                ) implies self.settled(t, marker, visited@) by {
                self.lemma_settled_stays(marker, before, visited@, t);
            }
        }
        match &self.entries[ty].shape {
            Shape::Leaf => {},
            Shape::Composite { variants } => {
                let mut v: usize = 0;
                while v < variants.len()
                    invariant
                        ty < self.entries@.len(),
                        self.entries@[ty as int].shape == (Shape::Composite { variants: *variants }),
                        v <= variants@.len(),
                        before == old(visited)@,
                        visited@.len() == before.len(),
                        before.len() == self.entries@.len(),
                        inner == open.insert(ty as int),
                        visited@[ty as int],
                        forall|t: int| 0 <= t < before.len() && before[t] ==> visited@[t],
                        unvisited(visited@) < unvisited(before),
                        self.settled_outside(marker, visited@, inner),
                        forall|t: int| inner.contains(t) ==> 0 <= t < visited@.len() && visited@[t],
                        forall|i: int, k: int|
                            0 <= i < v && 0 <= k < variants@[i]@.len() && 0 <= (
                            #[trigger] variants@[i]@[k]) < visited@.len() ==> visited@[variants@[i]@[k] as int],
                    decreases variants@.len() - v,
                {
                    let fields = &variants[v];
                    let mut k: usize = 0;
                    while k < fields.len()
                        invariant
                            ty < self.entries@.len(),
                            self.entries@[ty as int].shape == (Shape::Composite {
                                variants: *variants,
                            }),
                            v < variants@.len(),
                            *fields == variants@[v as int],
                            k <= fields@.len(),
                            before == old(visited)@,
                            visited@.len() == before.len(),
                            before.len() == self.entries@.len(),
                            inner == open.insert(ty as int),
                            visited@[ty as int],
                            forall|t: int| 0 <= t < before.len() && before[t] ==> visited@[t],
                            unvisited(visited@) < unvisited(before),
                            self.settled_outside(marker, visited@, inner),
                            forall|t: int|
                                inner.contains(t) ==> 0 <= t < visited@.len() && visited@[t],
                            forall|i: int, j: int|
                                0 <= i < v && 0 <= j < variants@[i]@.len() && 0 <= (
                                #[trigger] variants@[i]@[j]) < visited@.len()
                                    ==> visited@[variants@[i]@[j] as int],
                            forall|j: int|
                                0 <= j < k && 0 <= (#[trigger] fields@[j]) < visited@.len()
                                    ==> visited@[fields@[j] as int],
                        decreases fields@.len() - k,
                    {
                        let field = fields[k];
                        if field < visited.len() && !visited[field] {
                            let ghost mid = visited@;
                            proof {
                                self.entries@[ty as int].lemma_field_at(v as int, k as int);
                            }
                            if self.visit(field, marker, visited, Ghost(inner)) {
                                proof {
                                    self.lemma_marked_through_field(
                                        ty as int,
                                        field as int,
                                        marker,
                                    );
                                }
                                return true;
                            }
                            proof {
                                lemma_unvisited_shrinks(mid, visited@);
                            }
                        }
                        k += 1;
                    }
                    v += 1;
                }
                proof {
                    assert forall|field: int| #[trigger]
                        self.has_field(ty as int, field) && 0 <= field < visited@.len() implies visited@[field] by {
                        let (i, j) = choose|i: int, j: int|
                            0 <= i < variants@.len() && 0 <= j < variants@[i]@.len()
                                && (#[trigger] variants@[i]@[j]) == field;
                        assert(visited@[variants@[i]@[j] as int]);
                    }
                }
            },
        }
        false
    }

    /// Decides whether the type `ty` is marked: whether it satisfies `marker`
    /// itself, or holds, at any depth, a field whose type does. A type is
    /// looked into once, so the search ends on types that contain themselves.
    pub fn is_marked(&self, ty: usize, marker: MarkerId) -> (r: bool)
        ensures
            r == self.marked(ty as int, marker),
    {
        let n = self.entries.len();
        let mut visited: Vec<bool> = Vec::new();
        let mut i: usize = 0;
        while i < n
            invariant
                i <= n,
                visited@.len() == i,
                forall|t: int| 0 <= t < i ==> !visited@[t],
            decreases n - i,
        {
            visited.push(false);
            i += 1;
        }
        let found = ty < n && self.visit(ty, marker, &mut visited, Ghost(Set::empty()));
        proof {
            if !found {
                assert forall|target: int, depth: nat| #[trigger]
                    self.contains_at(ty as int, target, depth) implies !self.directly_marked(
                    target,
                    marker,
                ) by {
                    self.lemma_settled_unmarked(marker, visited@, ty as int, target, depth);
                }
            }
        }
        found
    }
}

} // verus!
