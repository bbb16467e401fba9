//! Formulas of converter nodes, as trees.
//!
//! A formula is evaluated in floating point, which is no part of this
//! library: the library holds the tree and hands it out.

use vstd::prelude::*;

verus! {

/// Operators with two operands.
#[derive(Clone, Copy, Debug, PartialEq, Eq, Structural)]
pub enum BinOpKind {
    Add,
    Sub,
    Mul,
    Div,
    Rem,
    Pow,
    And,
    Or,
    Xor,
    Shl,
    Shr,
    Eq,
    Ne,
    Lt,
    Le,
    Gt,
    Ge,
}

/// Operators with one operand.
#[derive(Clone, Copy, Debug, PartialEq, Eq, Structural)]
pub enum UnOpKind {
    Not,
    Abs,
    Sign,
    Neg,
    Sin,
    Cos,
    Tan,
    Asin,
    Acos,
    Atan,
    Exp,
    Ln,
    Lg,
    Sqrt,
    Trunc,
    Floor,
    Ceil,
    Round,
}

/// An expression of a formula.
#[derive(Debug)]
pub enum Expr {
    BinOp { kind: BinOpKind, lhs: Box<Expr>, rhs: Box<Expr> },
    UnOp { kind: UnOpKind, expr: Box<Expr> },
    If { cond: Box<Expr>, then_expr: Box<Expr>, else_expr: Box<Expr> },
    /// An integer literal.
    Integer(i64),
    /// A floating-point literal, by the 64 bits that encode it.
    Float(u64),
    /// The name of a variable.
    Ident(String),
}

/// A formula.
#[derive(Debug)]
pub struct Formula {
    pub expr: Expr,
}

impl Formula {
    /// The formula of an expression.
    pub fn new(expr: Expr) -> (formula: Self)
        ensures
            formula.expr == expr,
    {
        Self { expr }
    }

    /// The expression of the formula.
    pub fn expr(&self) -> (expr: &Expr)
        ensures
            *expr == self.expr,
    {
        &self.expr
    }
}

} // verus!
