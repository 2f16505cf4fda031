use crate::operators::{BinaryOp, LogicalOp, LoopControl, UnaryOp};
use crate::types::{Type, WabbitType};
use vstd::prelude::*;

verus! {

/// A statement of the language.
///
/// Every node carries a stable identifier, used only to resolve its source
/// range when a diagnostic must be reported.
#[derive(Debug)]
pub enum Stmt {
    Print { value: Expr, id: usize },
    VarDef { name: String, maybe_type: Option<Type>, maybe_value: Option<Expr>, id: usize },
    ConstDef { name: String, maybe_type: Option<Type>, value: Expr, id: usize },
    FuncDef {
        def_name: String,
        def_params: Vec<(String, Type)>,
        return_type: Type,
        body: Box<Stmt>,
        id: usize,
    },
    If { condition: Expr, then_block: Box<Stmt>, maybe_else_block: Option<Box<Stmt>>, id: usize },
    While { condition: Expr, body: Box<Stmt>, id: usize },
    LoopControl { control: LoopControl, id: usize },
    Return { value: Expr, id: usize },
    Assign { name: String, value: Expr, id: usize },
    Block { statements: Vec<Stmt>, id: usize },
    Expr(Expr),
}

/// An expression of the language.
#[derive(Debug)]
pub enum Expr {
    Call { name: String, params: Vec<Expr>, id: usize },
    TypeConversion { dtype: Type, params: Vec<Expr>, id: usize },
    Logical { lhs: Box<Expr>, op: LogicalOp, rhs: Box<Expr>, id: usize },
    VarName { name: String, id: usize },
    TypeName { dtype: Type, id: usize },
    Grouping { e: Box<Expr>, id: usize },
    Binary { lhs: Box<Expr>, op: BinaryOp, rhs: Box<Expr>, id: usize },
    Unary { op: UnaryOp, operand: Box<Expr>, id: usize },
    Literal { value: WabbitType, id: usize },
}

impl Expr {
    /// The identifier of this expression node.
    pub fn node_id(&self) -> (r: usize)
        ensures
            r == self.spec_id(),
    {
        match self {
            Expr::Call { id, .. } => *id,
            Expr::TypeConversion { id, .. } => *id,
            Expr::Logical { id, .. } => *id,
            Expr::VarName { id, .. } => *id,
            Expr::TypeName { id, .. } => *id,
            Expr::Grouping { id, .. } => *id,
            Expr::Binary { id, .. } => *id,
            Expr::Unary { id, .. } => *id,
            Expr::Literal { id, .. } => *id,
        }
    }

    pub open spec fn spec_id(self) -> usize {
        match self {
            Expr::Call { id, .. } => id,
            Expr::TypeConversion { id, .. } => id,
            Expr::Logical { id, .. } => id,
            Expr::VarName { id, .. } => id,
            Expr::TypeName { id, .. } => id,
            Expr::Grouping { id, .. } => id,
            Expr::Binary { id, .. } => id,
            Expr::Unary { id, .. } => id,
            Expr::Literal { id, .. } => id,
        }
    }
}

impl Stmt {
    /// The identifier of this statement node.
    pub fn node_id(&self) -> (r: usize)
        ensures
            r == self.spec_id(),
    {
        match self {
            Stmt::Print { id, .. } => *id,
            Stmt::VarDef { id, .. } => *id,
            Stmt::ConstDef { id, .. } => *id,
            Stmt::FuncDef { id, .. } => *id,
            Stmt::If { id, .. } => *id,
            Stmt::While { id, .. } => *id,
            Stmt::LoopControl { id, .. } => *id,
            Stmt::Return { id, .. } => *id,
            Stmt::Assign { id, .. } => *id,
            Stmt::Block { id, .. } => *id,
            Stmt::Expr(e) => e.node_id(),
        }
    }

    pub open spec fn spec_id(self) -> usize {
        match self {
            Stmt::Print { id, .. } => id,
            Stmt::VarDef { id, .. } => id,
            Stmt::ConstDef { id, .. } => id,
            Stmt::FuncDef { id, .. } => id,
            Stmt::If { id, .. } => id,
            Stmt::While { id, .. } => id,
            Stmt::LoopControl { id, .. } => id,
            Stmt::Return { id, .. } => id,
            Stmt::Assign { id, .. } => id,
            Stmt::Block { id, .. } => id,
            Stmt::Expr(e) => e.spec_id(),
        }
    }
}

} // verus!
