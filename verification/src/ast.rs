//! Syntax tree of the sample-editing formula language.
//!
//! A formula is a list of statements. Each statement evaluates an expression
//! and stores the value either into a sample of the edited buffer (an offset
//! relative to the cursor) or into a named variable. Before evaluation every
//! variable name is resolved to the index of the slot that holds it
//! (see `resolve`).
use vstd::prelude::*;

verus! {

/// A statement of a formula.
#[derive(Debug)]
pub enum Statement {
    /// `target = expr`
    Assign { target: Targets, expr: Expr },
    /// A sequence of statements run in order.
    Block(Box<Vec<Statement>>),
    /// `thens` runs only when `ifs` holds.
    Cond { ifs: Box<BinExpr>, thens: Box<Statement> },
}

/// Where the value of an assignment goes.
#[derive(Debug, PartialEq, Eq, Clone)]
pub enum Targets {
    /// A sample at the given offset from the cursor.
    ArrAcc(i64),
    /// A variable, by name (before resolution).
    Var(String),
    /// A variable, by slot index (after resolution).
    ResVar(usize),
}

/// Arithmetic operators.
#[derive(Debug, PartialEq, Eq, Clone, Copy, Structural)]
pub enum Opr {
    Add,
    Sub,
    Mul,
    Div,
}

/// Special constants and cursor-dependent values.
#[derive(Debug, PartialEq, Eq, Clone, Copy, Structural)]
pub enum Spec {
    Pi,
    E,
    Rnd,
    Mouse,
    Time,
    Fac,
}

/// Functions of one argument.
#[derive(Debug, PartialEq, Eq, Clone, Copy, Structural)]
pub enum SaFunc {
    Sin,
    Cos,
    Saw,
    Sqr,
    Tri,
    Tahn,
    Abs,
    Sign,
}

/// Functions of any number of arguments.
#[derive(Debug, PartialEq, Eq, Clone, Copy, Structural)]
pub enum MaFunc {
    Min,
    Max,
    Avg,
    Med,
}

/// An arithmetic expression.
#[allow(inconsistent_fields)]
#[derive(Debug)]
pub enum Expr {
    /// A sample of the source buffer at an (interpolated) offset from the cursor.
    ArrAcc(Box<Expr>),
    /// A variable, by name (before resolution).
    Var(String),
    /// A variable, by slot index (after resolution).
    ResVar(usize),
    Spec(Spec),
    /// A number literal, held as the bit pattern of its `f32` value.
    Float(u32),
    Binary { l: Box<Expr>, o: Opr, r: Box<Expr> },
    SaFunc { f: SaFunc, x: Box<Expr> },
    MaFunc { f: MaFunc, xs: Box<Vec<Expr>> },
}

/// A condition.
#[allow(inconsistent_fields)]
#[derive(Debug)]
pub enum BinExpr {
    Lit(bool),
    Cmp { l: Box<Expr>, o: CmpOpr, r: Box<Expr> },
    Bin { l: Box<BinExpr>, o: LogOpr, r: Box<BinExpr> },
}

/// Comparison operators.
#[derive(Debug, PartialEq, Eq, Clone, Copy, Structural)]
pub enum CmpOpr {
    Eq,
    Greq,
    Grt,
    Leq,
    Lss,
}

/// Logical connectives.
#[derive(Debug, PartialEq, Eq, Clone, Copy, Structural)]
pub enum LogOpr {
    And,
    Or,
    Xor,
}

} // verus!
