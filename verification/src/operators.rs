use vstd::prelude::*;

verus! {

/// Binary operators: arithmetic, relational and equality.
#[derive(Debug, Clone, Copy, PartialEq)]
pub enum BinaryOp {
    Plus,
    Minus,
    Times,
    Divide,
    Less,
    LessEqual,
    Greater,
    GreaterEqual,
    EqualEqual,
    NotEqual,
}

/// Unary operators.
#[derive(Debug, Clone, Copy, PartialEq)]
pub enum UnaryOp {
    Plus,
    Minus,
    LogicalNot,
}

/// Short-circuiting boolean connectives.
#[derive(Debug, Clone, Copy, PartialEq)]
pub enum LogicalOp {
    LogicalAnd,
    LogicalOr,
}

/// Loop control statements.
#[derive(Debug, Clone, Copy, PartialEq)]
pub enum LoopControl {
    Continue,
    Break,
}

} // verus!
