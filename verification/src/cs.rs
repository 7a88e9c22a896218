//! The constraint system: the column registry together with the
//! accumulated gate definitions and equality-enablement flags.
//!
//! It is a builder, mutated by exclusive reference during the single
//! configuration phase; synthesis then takes it by value, so the
//! registered columns and gates are frozen from that point on.

use crate::columns::{Column, ColumnKind, Selector};
use crate::expr::Expr;
use vstd::prelude::*;

verus! {

/// A named set of polynomial constraints, active wherever its selector is 1.
pub struct Gate {
    pub name: String,
    pub selector: Selector,
    pub constraints: Vec<Expr>,
}

impl Gate {
    /// Every one of this gate's constraint expressions is well formed.
    pub open spec fn inv(self) -> bool {
        forall|i: int| 0 <= i < self.constraints@.len() ==> (#[trigger] self.constraints@[i]).inv()
    }
}

/// The column registry and gate accumulator.
pub struct ConstraintSystem {
    pub num_advice: usize,
    pub num_fixed: usize,
    pub num_instance: usize,
    pub num_selectors: usize,
    /// One flag per advice column: whether it may join permutation groups.
    pub advice_equality: Vec<bool>,
    /// One flag per fixed column.
    pub fixed_equality: Vec<bool>,
    /// One flag per instance column.
    pub instance_equality: Vec<bool>,
    pub gates: Vec<Gate>,
}

impl ConstraintSystem {
    /// The registry is well formed: one equality flag per column of
    /// each kind, and every gate well formed.
    pub open spec fn inv(self) -> bool {
        &&& self.advice_equality@.len() == self.num_advice
        &&& self.fixed_equality@.len() == self.num_fixed
        &&& self.instance_equality@.len() == self.num_instance
        &&& forall|i: int| 0 <= i < self.gates@.len() ==> (#[trigger] self.gates@[i]).inv()
    }

    /// How many columns of `kind` are registered.
    pub open spec fn column_count(self, kind: ColumnKind) -> nat {
        match kind {
            ColumnKind::Advice => self.num_advice as nat,
            ColumnKind::Fixed => self.num_fixed as nat,
            ColumnKind::Instance => self.num_instance as nat,
        }
    }

    /// Whether `c` is registered and marked eligible for permutation groups.
    pub open spec fn equality_enabled(self, c: Column) -> bool {
        match c.kind {
            ColumnKind::Advice => c.index < self.advice_equality@.len()
                && self.advice_equality@[c.index as int],
            ColumnKind::Fixed => c.index < self.fixed_equality@.len()
                && self.fixed_equality@[c.index as int],
            ColumnKind::Instance => c.index < self.instance_equality@.len()
                && self.instance_equality@[c.index as int],
        }
    }

    /// Nothing registered yet: the state in which configuration starts.
    pub open spec fn is_fresh(self) -> bool {
        &&& self.num_advice == 0
        &&& self.num_fixed == 0
        &&& self.num_instance == 0
        &&& self.num_selectors == 0
        &&& self.gates@.len() == 0
    }

    /// An empty registry: no columns, no selectors, no gates.
    pub fn new() -> (cs: ConstraintSystem)
        ensures
            cs.inv(),
            cs.num_advice == 0,
            cs.num_fixed == 0,
            cs.num_instance == 0,
            cs.num_selectors == 0,
            cs.gates@.len() == 0,
            cs.is_fresh(),
            forall|c: Column| !cs.equality_enabled(c),
    {
        ConstraintSystem {
            num_advice: 0,
            num_fixed: 0,
            num_instance: 0,
            num_selectors: 0,
            advice_equality: Vec::new(),
            fixed_equality: Vec::new(),
            instance_equality: Vec::new(),
            gates: Vec::new(),
        }
    }

    /// Register a fresh advice column.
    pub fn add_advice_column(&mut self) -> (c: Column)
        requires
            old(self).inv(),
            old(self).num_advice < usize::MAX,
        ensures
            final(self).inv(),
            c == (Column { kind: ColumnKind::Advice, index: old(self).num_advice }),
            final(self).num_advice == old(self).num_advice + 1,
            final(self).num_fixed == old(self).num_fixed,
            final(self).num_instance == old(self).num_instance,
            final(self).num_selectors == old(self).num_selectors,
            final(self).gates == old(self).gates,
            !final(self).equality_enabled(c),
            forall|c2: Column|
                c2 != c ==> final(self).equality_enabled(c2) == old(self).equality_enabled(c2),
    {
        let index: usize = self.num_advice;
        self.num_advice = self.num_advice + 1;
        self.advice_equality.push(false);
        Column { kind: ColumnKind::Advice, index }
    }

    /// Register a fresh fixed column.
    pub fn add_fixed_column(&mut self) -> (c: Column)
        requires
            old(self).inv(),
            old(self).num_fixed < usize::MAX,
        ensures
            final(self).inv(),
            c == (Column { kind: ColumnKind::Fixed, index: old(self).num_fixed }),
            final(self).num_fixed == old(self).num_fixed + 1,
            final(self).num_advice == old(self).num_advice,
            final(self).num_instance == old(self).num_instance,
            final(self).num_selectors == old(self).num_selectors,
            final(self).gates == old(self).gates,
            !final(self).equality_enabled(c),
            forall|c2: Column|
                c2 != c ==> final(self).equality_enabled(c2) == old(self).equality_enabled(c2),
    {
        let index: usize = self.num_fixed;
        self.num_fixed = self.num_fixed + 1;
        self.fixed_equality.push(false);
        Column { kind: ColumnKind::Fixed, index }
    }

    /// Register a fresh instance column.
    pub fn add_instance_column(&mut self) -> (c: Column)
        requires
            old(self).inv(),
            old(self).num_instance < usize::MAX,
        ensures
            final(self).inv(),
            c == (Column { kind: ColumnKind::Instance, index: old(self).num_instance }),
            final(self).num_instance == old(self).num_instance + 1,
            final(self).num_advice == old(self).num_advice,
            final(self).num_fixed == old(self).num_fixed,
            final(self).num_selectors == old(self).num_selectors,
            final(self).gates == old(self).gates,
            !final(self).equality_enabled(c),
            forall|c2: Column|
                c2 != c ==> final(self).equality_enabled(c2) == old(self).equality_enabled(c2),
    {
        let index: usize = self.num_instance;
        self.num_instance = self.num_instance + 1;
        self.instance_equality.push(false);
        Column { kind: ColumnKind::Instance, index }
    }

    /// Register a fresh selector.
    pub fn add_selector(&mut self) -> (s: Selector)
        requires
            old(self).inv(),
            old(self).num_selectors < usize::MAX,
        ensures
            final(self).inv(),
            s == (Selector { index: old(self).num_selectors }),
            final(self).num_selectors == old(self).num_selectors + 1,
            final(self).num_advice == old(self).num_advice,
            final(self).num_fixed == old(self).num_fixed,
            final(self).num_instance == old(self).num_instance,
            final(self).gates == old(self).gates,
            forall|c2: Column| final(self).equality_enabled(c2) == old(self).equality_enabled(c2),
    {
        let index: usize = self.num_selectors;
        self.num_selectors = self.num_selectors + 1;
        Selector { index }
    }

    /// Whether `c` is registered and marked eligible for permutation groups.
    pub fn is_equality_enabled(&self, c: Column) -> (b: bool)
        ensures
            b == self.equality_enabled(c),
    {
        match c.kind {
            ColumnKind::Advice => c.index < self.advice_equality.len()
                && self.advice_equality[c.index],
            ColumnKind::Fixed => c.index < self.fixed_equality.len() && self.fixed_equality[c.index],
            ColumnKind::Instance => c.index < self.instance_equality.len()
                && self.instance_equality[c.index],
        }
    }

    /// Mark a registered column as eligible to join permutation groups.
    pub fn enable_equality(&mut self, c: Column)
        requires
            old(self).inv(),
            c.index < old(self).column_count(c.kind),
        ensures
            final(self).inv(),
            final(self).equality_enabled(c),
            forall|c2: Column|
                c2 != c ==> final(self).equality_enabled(c2) == old(self).equality_enabled(c2),
            final(self).num_advice == old(self).num_advice,
            final(self).num_fixed == old(self).num_fixed,
            final(self).num_instance == old(self).num_instance,
            final(self).num_selectors == old(self).num_selectors,
            final(self).gates == old(self).gates,
    {
        let ci: usize = c.index;
        match c.kind {
            ColumnKind::Advice => {
                self.advice_equality.set(ci, true);
            },
            ColumnKind::Fixed => {
                self.fixed_equality.set(ci, true);
            },
            ColumnKind::Instance => {
                self.instance_equality.set(ci, true);
            },
        }
    }

    /// Store a gate: the named, ordered list of constraint expressions
    /// governed by `selector`.  Several gates may share one selector;
    /// their constraints are logically conjoined.
    pub fn create_gate(&mut self, name: String, selector: Selector, constraints: Vec<Expr>)
        requires
            old(self).inv(),
            forall|i: int| 0 <= i < constraints@.len() ==> (#[trigger] constraints@[i]).inv(),
        ensures
            final(self).inv(),
            final(self).gates@ == old(self).gates@.push(
                (Gate { name, selector, constraints }),
            ),
            final(self).num_advice == old(self).num_advice,
            final(self).num_fixed == old(self).num_fixed,
            final(self).num_instance == old(self).num_instance,
            final(self).num_selectors == old(self).num_selectors,
            forall|c2: Column| final(self).equality_enabled(c2) == old(self).equality_enabled(c2),
    {
        self.gates.push(Gate { name, selector, constraints });
    }
}

} // verus!
