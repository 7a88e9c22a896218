//! The layouter: hands out disjoint row ranges ("regions") in call
//! order, with a single monotonic allocation cursor and no reuse,
//! gap-filling or reordering.  It also threads a namespace stack whose
//! only purpose is diagnostic labeling; it never affects addressing.

use crate::errors::SynthesisError;
use vstd::prelude::*;

verus! {

/// A contiguous, exclusively-owned row range handed to one chip
/// invocation.  The diagnostic name it was requested under stays with
/// the layouter (`region_names`), so the handle itself is copyable.
#[derive(Clone, Copy, Debug, PartialEq, Eq, Structural)]
pub struct Region {
    /// First absolute row of the range.
    pub start: usize,
    /// Number of rows in the range.
    pub rows: usize,
}

/// Whether absolute row `row` lies inside region `r`.
pub open spec fn region_contains(r: Region, row: int) -> bool {
    r.start <= row < r.start + r.rows
}

/// The region allocator.
pub struct Layouter {
    /// Total number of rows that may ever be allocated, fixed up front.
    pub capacity: usize,
    /// First row not yet allocated.
    pub cursor: usize,
    /// Every region handed out so far, in allocation order.
    pub regions: Vec<Region>,
    /// The diagnostic name each region was requested under.
    pub region_names: Vec<String>,
    /// The diagnostic namespace stack.
    pub namespaces: Vec<String>,
}

impl Layouter {
    /// Allocation is monotonic: every handed-out region lies below the
    /// cursor, later regions start at or after the ends of earlier
    /// ones, and the cursor never passes the capacity.
    pub open spec fn inv(self) -> bool {
        &&& self.cursor <= self.capacity
        &&& self.region_names@.len() == self.regions@.len()
        &&& forall|i: int|
            0 <= i < self.regions@.len() ==> (#[trigger] self.regions@[i]).start
                + self.regions@[i].rows <= self.cursor
        &&& forall|i: int, j: int|
            0 <= i < j < self.regions@.len() ==> (#[trigger] self.regions@[i]).start
                + self.regions@[i].rows <= (#[trigger] self.regions@[j]).start
    }

    /// A fresh layouter over `capacity` rows.
    pub fn new(capacity: usize) -> (l: Layouter)
        ensures
            l.inv(),
            l.capacity == capacity,
            l.cursor == 0,
            l.regions@.len() == 0,
            l.namespaces@.len() == 0,
    {
        Layouter {
            capacity,
            cursor: 0,
            regions: Vec::new(),
            region_names: Vec::new(),
            namespaces: Vec::new(),
        }
    }

    /// Reserve the next `rows` rows as a new region.
    ///
    /// Succeeds exactly when the request still fits in the remaining
    /// capacity; on failure nothing is allocated and the error names
    /// the offending region.
    pub fn assign_region(&mut self, name: String, rows: usize) -> (r: Result<
        Region,
        SynthesisError,
    >)
        requires
            old(self).inv(),
        ensures
            final(self).inv(),
            final(self).capacity == old(self).capacity,
            final(self).namespaces == old(self).namespaces,
            r is Ok <==> old(self).cursor + rows <= old(self).capacity,
            r is Ok ==> {
                &&& r == Ok::<Region, SynthesisError>(
                    (Region { start: old(self).cursor, rows }),
                )
                &&& final(self).cursor == old(self).cursor + rows
                &&& final(self).regions@ == old(self).regions@.push(
                    (Region { start: old(self).cursor, rows }),
                )
                &&& final(self).region_names@ == old(self).region_names@.push(name)
            },
            r is Err ==> {
                &&& final(self).cursor == old(self).cursor
                &&& final(self).regions == old(self).regions
                &&& final(self).region_names == old(self).region_names
                &&& r == Err::<Region, SynthesisError>(
                    (SynthesisError::RegionOverflow { region: name }),
                )
            },
    {
        if rows <= self.capacity - self.cursor {
            let region = Region { start: self.cursor, rows };
            self.cursor = self.cursor + rows;
            self.regions.push(region);
            self.region_names.push(name);
            Ok(region)
        } else {
            Err(SynthesisError::RegionOverflow { region: name })
        }
    }

    /// Enter a named scope.  Purely diagnostic.
    pub fn push_namespace(&mut self, name: String)
        requires
            old(self).inv(),
        ensures
            final(self).inv(),
            final(self).namespaces@ == old(self).namespaces@.push(name),
            final(self).capacity == old(self).capacity,
            final(self).cursor == old(self).cursor,
            final(self).regions == old(self).regions,
            final(self).region_names == old(self).region_names,
    {
        self.namespaces.push(name);
    }

    /// Leave the innermost named scope.  Purely diagnostic.
    pub fn pop_namespace(&mut self)
        requires
            old(self).inv(),
            old(self).namespaces@.len() > 0,
        ensures
            final(self).inv(),
            final(self).namespaces@ == old(self).namespaces@.drop_last(),
            final(self).capacity == old(self).capacity,
            final(self).cursor == old(self).cursor,
            final(self).regions == old(self).regions,
            final(self).region_names == old(self).region_names,
    {
        self.namespaces.pop();
        proof {
            assert(self.namespaces@ =~= old(self).namespaces@.drop_last());
        }
    }
}

/// Region ranges are pairwise disjoint: two distinct regions handed
/// out by one layouter share no row.
pub proof fn lemma_regions_disjoint(l: Layouter, p: int, q: int)
    requires
        l.inv(),
        0 <= p < l.regions@.len(),
        0 <= q < l.regions@.len(),
        p != q,
    ensures
        forall|row: int| !(region_contains(l.regions@[p], row) && region_contains(l.regions@[q], row)),
{
    if p < q {
        assert(l.regions@[p].start + l.regions@[p].rows <= l.regions@[q].start);
    } else {
        assert(l.regions@[q].start + l.regions@[q].rows <= l.regions@[p].start);
    }
}

} // verus!
