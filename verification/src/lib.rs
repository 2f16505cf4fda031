//! A small expression-and-statement language: scope-aware environments, a
//! typechecking pass and an interpreting pass over a shared abstract syntax
//! tree, and a diagnostic model that ties every error to a source range.
//!
//! The scanner, parser and code generator that surround these passes are
//! external collaborators: they communicate with this crate through the
//! syntax tree, the range map, diagnostics and the execution trace.

/// typecheck or interpret statements
pub mod analyzer;
/// statement and expression trees
pub mod ast;
/// manage variable scope
pub mod environment;
/// diagnostics
pub mod error;
/// interpret statements
pub mod interpreter;
/// proved laws of the passes
pub mod laws;
/// primitive operators
pub mod operators;
/// typecheck statements
pub mod typechecker;
/// language types and values
pub mod types;


pub use crate::analyzer::Analyzer;
pub use crate::ast::{Expr, Stmt};
pub use crate::error::{Diagnostic, Msg, WabbitError, WabbitErrorReporter};
pub use crate::environment::{Environment, VarStore};


pub use crate::interpreter::{Interpreter, Signal};
pub use crate::operators::{BinaryOp, LogicalOp, LoopControl, UnaryOp};

pub use crate::typechecker::Typechecker;
pub use crate::types::{Type, WabbitType};
