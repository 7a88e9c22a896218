//! The permutation argument: equality groups between cells.
//!
//! Cells declared mutually equal are merged into equivalence classes
//! during synthesis; after synthesis, [`Permutation::check`] validates
//! that all cells of a class hold equal values in the finished grid.
//!
//! A class is represented by a label: `cells` lists every cell that has
//! appeared in a copy constraint, and `class` gives each its label.
//! Merging two classes relabels the smaller-scoped one in a single
//! pass, so two cells are in one group exactly when their labels agree.

use crate::columns::Cell;
use crate::errors::SynthesisError;
use crate::grid::Grid;
use crate::value::CellValue;
use vstd::prelude::*;

verus! {

/// The recorded equality groups.
pub struct Permutation {
    /// Every cell that has appeared in a copy constraint, each once.
    pub cells: Vec<Cell>,
    /// The class label of each cell in `cells`.
    pub class: Vec<usize>,
}

impl Permutation {
    /// Well-formedness: one label per cell, no cell listed twice, and
    /// every label below the cell count (so the next insertion can
    /// always pick a fresh one).
    pub open spec fn inv(self) -> bool {
        &&& self.class@.len() == self.cells@.len()
        &&& forall|i: int, j: int|
            0 <= i < self.cells@.len() && 0 <= j < self.cells@.len() && i != j
                ==> self.cells@[i] != self.cells@[j]
        &&& forall|i: int| 0 <= i < self.class@.len() ==> (#[trigger] self.class@[i]) < self.cells@.len()
    }

    /// Whether `x` and `y` are in the same permutation group.
    ///
    /// The relation is reflexive by definition and, under `inv`, an
    /// equivalence relation ([`lemma_same_group_equivalence`]).
    pub open spec fn same_group(self, x: Cell, y: Cell) -> bool {
        x == y || exists|i: int, j: int|
            0 <= i < self.cells@.len() && 0 <= j < self.cells@.len() && self.cells@[i] == x
                && self.cells@[j] == y && self.class@[i] == self.class@[j]
    }

    /// An empty argument: no groups beyond the trivial reflexive ones.
    pub fn new() -> (p: Permutation)
        ensures
            p.inv(),
            p.cells@.len() == 0,
            forall|x: Cell, y: Cell| p.same_group(x, y) <==> x == y,
    {
        Permutation { cells: Vec::new(), class: Vec::new() }
    }

    /// The index of `c` among the recorded cells, if it has appeared.
    fn index_of(&self, c: Cell) -> (r: Option<usize>)
        requires
            self.inv(),
        ensures
            (match r {
                Some(i) => i < self.cells@.len() && self.cells@[i as int] == c,
                None => forall|i: int| 0 <= i < self.cells@.len() ==> self.cells@[i] != c,
            }),
    {
        let mut i: usize = 0;
        while i < self.cells.len()
            invariant
                i <= self.cells@.len(),
                forall|k: int| 0 <= k < i ==> self.cells@[k] != c,
            decreases self.cells@.len() - i,
        {
            if self.cells[i] == c {
                return Some(i);
            }
            i = i + 1;
        }
        None
    }

    /// Whether `x` and `y` are in the same permutation group.
    pub fn in_same_group(&self, x: Cell, y: Cell) -> (b: bool)
        requires
            self.inv(),
        ensures
            b == self.same_group(x, y),
    {
        if x == y {
            return true;
        }
        match (self.index_of(x), self.index_of(y)) {
            (Some(i), Some(j)) => {
                let b = self.class[i] == self.class[j];
                proof {
                    if b {
                        assert(self.same_group(x, y));
                    }
                    if self.same_group(x, y) {
                        let (a, bb): (int, int) = choose|a: int, bb: int|
                            0 <= a < self.cells@.len() && 0 <= bb < self.cells@.len()
                                && self.cells@[a] == x && self.cells@[bb] == y && self.class@[a]
                                == self.class@[bb];
                        assert(a == i && bb == j);
                    }
                }
                b
            },
            _ => {
                proof {
                    if self.same_group(x, y) {
                        let (a, bb): (int, int) = choose|a: int, bb: int|
                            0 <= a < self.cells@.len() && 0 <= bb < self.cells@.len()
                                && self.cells@[a] == x && self.cells@[bb] == y && self.class@[a]
                                == self.class@[bb];
                        assert(false);
                    }
                }
                false
            },
        }
    }

    /// The index of `c`, inserting it as a fresh singleton class if it
    /// has not appeared yet.  Insertion changes no grouping: a fresh
    /// singleton only adds pairs the relation already held reflexively.
    fn find_or_insert(&mut self, c: Cell) -> (i: usize)
        requires
            old(self).inv(),
        ensures
            final(self).inv(),
            i < final(self).cells@.len(),
            final(self).cells@[i as int] == c,
            old(self).cells@.len() <= final(self).cells@.len() <= old(self).cells@.len() + 1,
            final(self).cells@.len() == old(self).cells@.len() + 1 ==> i == old(self).cells@.len(),
            forall|k: int|
                0 <= k < old(self).cells@.len() ==> final(self).cells@[k] == old(self).cells@[k],
            forall|u: Cell, v: Cell|
                #[trigger] final(self).same_group(u, v) == old(self).same_group(u, v),
    {
        match self.index_of(c) {
            Some(i) => i,
            None => {
                let i: usize = self.cells.len();
                self.cells.push(c);
                self.class.push(i);
                proof {
                    let n = old(self).cells@.len() as int;
                    assert forall|u: Cell, v: Cell|
                        #[trigger] self.same_group(u, v) == old(self).same_group(u, v) by {
                        if self.same_group(u, v) && u != v {
                            let (a, b): (int, int) = choose|a: int, b: int|
                                0 <= a < self.cells@.len() && 0 <= b < self.cells@.len()
                                    && self.cells@[a] == u && self.cells@[b] == v && self.class@[a]
                                    == self.class@[b];
                            if a < n && b < n {
                                assert(old(self).cells@[a] == u && old(self).cells@[b] == v && old(
                                    self,
                                ).class@[a] == old(self).class@[b]);
                                assert(old(self).same_group(u, v));
                            } else if a == n && b < n {
                                // the fresh cell's label n is carried by no older cell
                                assert(self.class@[a] == n);
                                assert(old(self).class@[b] < n);
                                assert(false);
                            } else if a < n && b == n {
                                assert(self.class@[b] == n);
                                assert(old(self).class@[a] < n);
                                assert(false);
                            } else {
                                assert(u == v);
                            }
                        }
                        if old(self).same_group(u, v) && u != v {
                            let (a, b): (int, int) = choose|a: int, b: int|
                                0 <= a < old(self).cells@.len() && 0 <= b < old(
                                    self,
                                ).cells@.len() && old(self).cells@[a] == u && old(self).cells@[b]
                                    == v && old(self).class@[a] == old(self).class@[b];
                            assert(self.cells@[a] == u && self.cells@[b] == v && self.class@[a]
                                == self.class@[b]);
                            assert(self.same_group(u, v));
                        }
                    }
                }
                i
            },
        }
    }

    /// Rewrite every label `from` to `to`.
    fn merge_labels(&mut self, to: usize, from: usize)
        requires
            old(self).inv(),
            to < old(self).cells@.len(),
        ensures
            final(self).inv(),
            final(self).cells == old(self).cells,
            final(self).class@.len() == old(self).class@.len(),
            forall|i: int|
                0 <= i < final(self).class@.len() ==> final(self).class@[i] == (if old(
                    self,
                ).class@[i] == from {
                    to as int
                } else {
                    old(self).class@[i] as int
                }),
    {
        let mut i: usize = 0;
        while i < self.class.len()
            invariant
                self.cells == old(self).cells,
                self.class@.len() == old(self).class@.len(),
                old(self).inv(),
                to < old(self).cells@.len(),
                i <= self.class@.len(),
                forall|k: int|
                    i <= k < self.class@.len() ==> self.class@[k] == old(self).class@[k],
                forall|k: int|
                    0 <= k < i ==> self.class@[k] == (if old(self).class@[k] == from {
                        to as int
                    } else {
                        old(self).class@[k] as int
                    }),
            decreases self.class@.len() - i,
        {
            if self.class[i] == from {
                self.class.set(i, to);
            }
            i = i + 1;
        }
    }

    /// Declare `x` and `y` equal: merge the classes containing them.
    ///
    /// Afterwards two cells are in one group exactly when they already
    /// were, or when one reaches `x` and the other `y`.
    pub fn union(&mut self, x: Cell, y: Cell)
        requires
            old(self).inv(),
        ensures
            final(self).inv(),
            final(self).cells@.len() <= old(self).cells@.len() + 2,
            forall|k: int|
                0 <= k < final(self).cells@.len() ==> ((k < old(self).cells@.len()
                    && final(self).cells@[k] == old(self).cells@[k])
                    || (#[trigger] final(self).cells@[k]) == x || final(self).cells@[k] == y),
            final(self).same_group(x, y),
            forall|u: Cell, v: Cell|
                #[trigger] final(self).same_group(u, v) <==> (old(self).same_group(u, v) || (old(
                    self,
                ).same_group(u, x) && old(self).same_group(y, v)) || (old(self).same_group(u, y)
                    && old(self).same_group(x, v))),
    {
        let ghost pre = *old(self);
        let ix: usize = self.find_or_insert(x);
        let ghost afterx = *self;
        let iy: usize = self.find_or_insert(y);
        let ghost mid = *self;
        proof {
            assert(forall|u: Cell, v: Cell|
                #[trigger] mid.same_group(u, v) == pre.same_group(u, v));
            assert(mid.cells@[ix as int] == x) by {
                if afterx.cells@.len() < mid.cells@.len() {
                    assert(mid.cells@[ix as int] == afterx.cells@[ix as int]);
                }
            }
        }
        let cx: usize = self.class[ix];
        let cy: usize = self.class[iy];
        if cx == cy {
            proof {
                assert(mid.same_group(x, y));
                lemma_merge_collapses(pre, mid, x, y);
            }
            return ;
        }
        self.merge_labels(cx, cy);
        proof {
            lemma_relabel_is_merge(mid, *self, ix as int, iy as int, x, y);
            assert forall|u: Cell, v: Cell|
                #[trigger] self.same_group(u, v) <==> (pre.same_group(u, v) || (pre.same_group(
                    u,
                    x,
                ) && pre.same_group(y, v)) || (pre.same_group(u, y) && pre.same_group(x, v))) by {
                assert(self.same_group(u, v) <==> (mid.same_group(u, v) || (mid.same_group(u, x)
                    && mid.same_group(y, v)) || (mid.same_group(u, y) && mid.same_group(x, v))));
            }
            assert(self.same_group(x, y));
        }
    }

    /// Check every group against the finished grid.
    ///
    /// Succeeds exactly when all cells of every group hold equal
    /// values; the first mismatch found is reported as
    /// `PermutationUnsatisfied` with the offending pair.
    pub fn check(&self, g: &Grid) -> (r: Result<(), SynthesisError>)
        requires
            self.inv(),
            g.inv(),
        ensures
            r is Ok <==> (forall|u: Cell, v: Cell|
                self.same_group(u, v) ==> g.cell_value(u) == g.cell_value(v)),
            (match r {
                Ok(_) => true,
                Err(e) => match e {
                    SynthesisError::PermutationUnsatisfied { cell_a, cell_b } => self.same_group(
                        cell_a,
                        cell_b,
                    ) && g.cell_value(cell_a) != g.cell_value(cell_b),
                    _ => false,
                },
            }),
    {
        let n: usize = self.cells.len();
        let mut i: usize = 0;
        while i < n
            invariant
                self.inv(),
                g.inv(),
                n == self.cells@.len(),
                i <= n,
                forall|a: int, b: int|
                    0 <= a < i && 0 <= b < n && self.class@[a] == self.class@[b]
                        ==> g.cell_value(self.cells@[a]) == g.cell_value(self.cells@[b]),
            decreases n - i,
        {
            let vi: CellValue = g.get_cell(self.cells[i]);
            let mut j: usize = 0;
            while j < n
                invariant
                    self.inv(),
                    g.inv(),
                    n == self.cells@.len(),
                    i < n,
                    j <= n,
                    vi == g.cell_value(self.cells@[i as int]),
                    forall|b: int|
                        0 <= b < j && self.class@[i as int] == self.class@[b] ==> g.cell_value(
                            self.cells@[i as int],
                        ) == g.cell_value(self.cells@[b]),
                decreases n - j,
            {
                if self.class[i] == self.class[j] {
                    let vj: CellValue = g.get_cell(self.cells[j]);
                    if !values_equal(vi, vj) {
                        proof {
                            assert(self.same_group(self.cells@[i as int], self.cells@[j as int]));
                        }
                        return Err(
                            SynthesisError::PermutationUnsatisfied {
                                cell_a: self.cells[i],
                                cell_b: self.cells[j],
                            },
                        );
                    }
                }
                j = j + 1;
            }
            i = i + 1;
        }
        proof {
            assert forall|u: Cell, v: Cell| self.same_group(u, v) implies g.cell_value(u)
                == g.cell_value(v) by {
                if u != v {
                    let (a, b): (int, int) = choose|a: int, b: int|
                        0 <= a < self.cells@.len() && 0 <= b < self.cells@.len() && self.cells@[a]
                            == u && self.cells@[b] == v && self.class@[a] == self.class@[b];
                    assert(g.cell_value(self.cells@[a]) == g.cell_value(self.cells@[b]));
                }
            }
        }
        Ok(())
    }
}

/// Whether two cell values are identical.
fn values_equal(a: CellValue, b: CellValue) -> (r: bool)
    ensures
        r == (a == b),
{
    match (a, b) {
        (CellValue::Unassigned, CellValue::Unassigned) => true,
        (CellValue::Assigned(fa), CellValue::Assigned(fb)) => fa == fb,
        _ => false,
    }
}

/// The groups form equivalence classes: the relation is reflexive,
/// symmetric and transitive.
pub proof fn lemma_same_group_equivalence(p: Permutation, x: Cell, y: Cell, z: Cell)
    requires
        p.inv(),
    ensures
        p.same_group(x, x),
        p.same_group(x, y) ==> p.same_group(y, x),
        p.same_group(x, y) && p.same_group(y, z) ==> p.same_group(x, z),
{
    if p.same_group(x, y) && p.same_group(y, z) && x != y && y != z && x != z {
        let (a, b): (int, int) = choose|a: int, b: int|
            0 <= a < p.cells@.len() && 0 <= b < p.cells@.len() && p.cells@[a] == x && p.cells@[b]
                == y && p.class@[a] == p.class@[b];
        let (c, d): (int, int) = choose|c: int, d: int|
            0 <= c < p.cells@.len() && 0 <= d < p.cells@.len() && p.cells@[c] == y && p.cells@[d]
                == z && p.class@[c] == p.class@[d];
        assert(b == c);
        assert(p.class@[a] == p.class@[d]);
    }
}

/// The partition evolves deterministically: merging the same pair of
/// cells into two groupings that relate exactly the same cells yields
/// groupings that again relate exactly the same cells.  Together with
/// [`Permutation::union`]'s postcondition, which pins the new relation
/// as a function of the old one, identical sequences of copy
/// constraints always produce identical partitions.
pub proof fn lemma_union_deterministic(
    p1: Permutation,
    q1: Permutation,
    p2: Permutation,
    q2: Permutation,
    x: Cell,
    y: Cell,
)
    requires
        forall|u: Cell, v: Cell| #[trigger] p1.same_group(u, v) == p2.same_group(u, v),
        forall|u: Cell, v: Cell|
            #[trigger] q1.same_group(u, v) <==> (p1.same_group(u, v) || (p1.same_group(u, x)
                && p1.same_group(y, v)) || (p1.same_group(u, y) && p1.same_group(x, v))),
        forall|u: Cell, v: Cell|
            #[trigger] q2.same_group(u, v) <==> (p2.same_group(u, v) || (p2.same_group(u, x)
                && p2.same_group(y, v)) || (p2.same_group(u, y) && p2.same_group(x, v))),
    ensures
        forall|u: Cell, v: Cell| #[trigger] q1.same_group(u, v) == q2.same_group(u, v),
{
}

/// When `x` and `y` already share a class, merging them changes nothing:
/// each disjunct of the merge law collapses into the plain relation.
proof fn lemma_merge_collapses(pre: Permutation, mid: Permutation, x: Cell, y: Cell)
    requires
        pre.inv(),
        mid.inv(),
        mid.same_group(x, y),
        forall|u: Cell, v: Cell| #[trigger] mid.same_group(u, v) == pre.same_group(u, v),
    ensures
        forall|u: Cell, v: Cell|
            #[trigger] mid.same_group(u, v) <==> (pre.same_group(u, v) || (pre.same_group(u, x)
                && pre.same_group(y, v)) || (pre.same_group(u, y) && pre.same_group(x, v))),
{
    assert forall|u: Cell, v: Cell|
        #[trigger] mid.same_group(u, v) <==> (pre.same_group(u, v) || (pre.same_group(u, x)
            && pre.same_group(y, v)) || (pre.same_group(u, y) && pre.same_group(x, v))) by {
        assert(pre.same_group(x, y));
        if pre.same_group(u, x) && pre.same_group(y, v) {
            lemma_same_group_equivalence(pre, u, x, y);
            lemma_same_group_equivalence(pre, u, y, v);
        }
        if pre.same_group(u, y) && pre.same_group(x, v) {
            lemma_same_group_equivalence(pre, y, x, u);
            lemma_same_group_equivalence(pre, u, x, v);
            lemma_same_group_equivalence(pre, x, u, v);
        }
    }
}

/// Relabeling `y`'s class to `x`'s label realizes exactly the merge of
/// the two classes.
proof fn lemma_relabel_is_merge(
    mid: Permutation,
    post: Permutation,
    ix: int,
    iy: int,
    x: Cell,
    y: Cell,
)
    requires
        mid.inv(),
        post.inv(),
        0 <= ix < mid.cells@.len(),
        0 <= iy < mid.cells@.len(),
        mid.cells@[ix] == x,
        mid.cells@[iy] == y,
        mid.class@[ix] != mid.class@[iy],
        post.cells == mid.cells,
        post.class@.len() == mid.class@.len(),
        forall|i: int|
            0 <= i < post.class@.len() ==> post.class@[i] == (if mid.class@[i] == mid.class@[iy] {
                mid.class@[ix] as int
            } else {
                mid.class@[i] as int
            }),
    ensures
        forall|u: Cell, v: Cell|
            #[trigger] post.same_group(u, v) <==> (mid.same_group(u, v) || (mid.same_group(u, x)
                && mid.same_group(y, v)) || (mid.same_group(u, y) && mid.same_group(x, v))),
{
    let cx = mid.class@[ix];
    let cy = mid.class@[iy];
    assert forall|u: Cell, v: Cell|
        #[trigger] post.same_group(u, v) <==> (mid.same_group(u, v) || (mid.same_group(u, x)
            && mid.same_group(y, v)) || (mid.same_group(u, y) && mid.same_group(x, v))) by {
        if u != v {
            if post.same_group(u, v) {
                let (a, b): (int, int) = choose|a: int, b: int|
                    0 <= a < post.cells@.len() && 0 <= b < post.cells@.len() && post.cells@[a] == u
                        && post.cells@[b] == v && post.class@[a] == post.class@[b];
                if mid.class@[a] == mid.class@[b] {
                    assert(mid.same_group(u, v));
                } else if mid.class@[a] == cy {
                    // a was relabeled to cx, so b already carried cx
                    assert(mid.class@[b] == cx);
                    assert(mid.same_group(u, y));
                    assert(mid.same_group(x, v));
                } else {
                    assert(mid.class@[b] == cy);
                    assert(mid.class@[a] == cx);
                    assert(mid.same_group(u, x));
                    assert(mid.same_group(y, v));
                }
            }
            if mid.same_group(u, v) {
                let (a, b): (int, int) = choose|a: int, b: int|
                    0 <= a < mid.cells@.len() && 0 <= b < mid.cells@.len() && mid.cells@[a] == u
                        && mid.cells@[b] == v && mid.class@[a] == mid.class@[b];
                assert(post.class@[a] == post.class@[b]);
                assert(post.same_group(u, v));
            }
            if mid.same_group(u, x) && mid.same_group(y, v) {
                let (a, b): (int, int) = choose|a: int, b: int|
                    0 <= a < mid.cells@.len() && 0 <= b < mid.cells@.len() && mid.cells@[a] == u
                        && mid.cells@[b] == x && mid.class@[a] == mid.class@[b];
                let (c, d): (int, int) = choose|c: int, d: int|
                    0 <= c < mid.cells@.len() && 0 <= d < mid.cells@.len() && mid.cells@[c] == y
                        && mid.cells@[d] == v && mid.class@[c] == mid.class@[d];
                assert(b == ix);
                assert(c == iy);
                assert(post.class@[a] == cx && post.class@[d] == cx);
                assert(post.same_group(u, v));
            }
            if mid.same_group(u, y) && mid.same_group(x, v) {
                let (a, b): (int, int) = choose|a: int, b: int|
                    0 <= a < mid.cells@.len() && 0 <= b < mid.cells@.len() && mid.cells@[a] == u
                        && mid.cells@[b] == y && mid.class@[a] == mid.class@[b];
                let (c, d): (int, int) = choose|c: int, d: int|
                    0 <= c < mid.cells@.len() && 0 <= d < mid.cells@.len() && mid.cells@[c] == x
                        && mid.cells@[d] == v && mid.class@[c] == mid.class@[d];
                assert(b == iy);
                assert(c == ix);
                assert(post.class@[a] == cx && post.class@[d] == cx);
                assert(post.same_group(u, v));
            }
        } else {
            if mid.same_group(u, x) && mid.same_group(y, v) {
                assert(post.same_group(u, v));
            }
        }
    }
}

} // verus!
