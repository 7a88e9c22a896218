//! Symbolic gate expressions.
//!
//! A gate expression is a pure polynomial tree over column queries with
//! row rotations.  It carries no captured state: it is plain data,
//! evaluated later against a concrete grid by [`crate::grid::evaluate`].

use crate::columns::{Column, Selector};
use crate::field::Felt;
use vstd::prelude::*;

verus! {

/// A symbolic polynomial over column queries.
///
/// A query's rotation is a signed row offset, resolved against the
/// gate's current row only at evaluation time.
pub enum Expr {
    /// A constant field element.
    Constant(Felt),
    /// The value of a selector at the current row: 1 where enabled, 0 elsewhere.
    SelectorQuery(Selector),
    /// The value of a column at the current row plus `rotation`.
    Query { column: Column, rotation: i32 },
    Add(Box<Expr>, Box<Expr>),
    Sub(Box<Expr>, Box<Expr>),
    Mul(Box<Expr>, Box<Expr>),
    Neg(Box<Expr>),
}

impl Expr {
    /// Every constant in the tree is a canonical field element.
    pub open spec fn inv(self) -> bool
        decreases self,
    {
        match self {
            Expr::Constant(f) => f.inv(),
            Expr::SelectorQuery(_) => true,
            Expr::Query { .. } => true,
            Expr::Add(a, b) => a.inv() && b.inv(),
            Expr::Sub(a, b) => a.inv() && b.inv(),
            Expr::Mul(a, b) => a.inv() && b.inv(),
            Expr::Neg(a) => a.inv(),
        }
    }

    /// The leaf expression holding the constant `f`.
    pub fn constant(f: Felt) -> (e: Expr)
        requires
            f.inv(),
        ensures
            e == Expr::Constant(f),
            e.inv(),
    {
        Expr::Constant(f)
    }

    /// The leaf expression querying selector `s` at the current row.
    pub fn query_selector(s: Selector) -> (e: Expr)
        ensures
            e == Expr::SelectorQuery(s),
            e.inv(),
    {
        Expr::SelectorQuery(s)
    }

    /// The leaf expression querying `column` at the current row plus `rotation`.
    pub fn query(column: Column, rotation: i32) -> (e: Expr)
        ensures
            e == (Expr::Query { column, rotation }),
            e.inv(),
    {
        Expr::Query { column, rotation }
    }

    /// The leaf expression querying the advice column `column` at the
    /// current row plus `rotation`.
    pub fn query_advice(column: Column, rotation: i32) -> (e: Expr)
        requires
            column.kind == crate::columns::ColumnKind::Advice,
        ensures
            e == (Expr::Query { column, rotation }),
            e.inv(),
    {
        Expr::Query { column, rotation }
    }

    /// The sum of two expressions.
    pub fn add(self, other: Expr) -> (e: Expr)
        requires
            self.inv(),
            other.inv(),
        ensures
            (match e {
                Expr::Add(l, r) => *l == self && *r == other,
                _ => false,
            }),
            e.inv(),
    {
        Expr::Add(Box::new(self), Box::new(other))
    }

    /// The difference of two expressions.
    pub fn sub(self, other: Expr) -> (e: Expr)
        requires
            self.inv(),
            other.inv(),
        ensures
            (match e {
                Expr::Sub(l, r) => *l == self && *r == other,
                _ => false,
            }),
            e.inv(),
    {
        Expr::Sub(Box::new(self), Box::new(other))
    }

    /// The product of two expressions.
    pub fn mul(self, other: Expr) -> (e: Expr)
        requires
            self.inv(),
            other.inv(),
        ensures
            (match e {
                Expr::Mul(l, r) => *l == self && *r == other,
                _ => false,
            }),
            e.inv(),
    {
        Expr::Mul(Box::new(self), Box::new(other))
    }

    /// The negation of an expression.
    pub fn neg(self) -> (e: Expr)
        requires
            self.inv(),
        ensures
            (match e {
                Expr::Neg(a) => *a == self,
                _ => false,
            }),
            e.inv(),
    {
        Expr::Neg(Box::new(self))
    }
}

} // verus!
