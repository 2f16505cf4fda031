use crate::analyzer::{
    assoc_find, diag0, diag1, diag3, guard_view, spec_check_constant, spec_check_env,
    spec_check_function, spec_diag0, spec_diag1, spec_diag3, spec_exit, Analyzer, SpecState,
};
use crate::ast::{Expr, Stmt};
use crate::environment::{env_assign, env_find, frame_view, SpecFrame, VarStore};
use crate::error::{
    decimal_of, spec_label_of, spec_range_of, usize_string, Diagnostic, Msg, SpecDiagnostic,
    WabbitError,
};
use crate::operators::{BinaryOp, LogicalOp, LoopControl, UnaryOp};
use crate::typechecker::{
    env_define, has_dup_params, inc64, inc64_exec, params_have_dup,
};
use crate::types::{Type, WabbitType};
use std::collections::HashMap;
use vstd::prelude::*;

verus! {

/// The interpreting pass: an analyzer whose semantic values are runtime
/// values.
pub type Interpreter<'a> = Analyzer<'a, WabbitType>;

/// The control-flow result of executing one statement.  It is returned up
/// the traversal and consumed by the nearest construct that can: a loop
/// consumes `Break` and `Continue`, a function call consumes `Return`.
#[derive(Debug, Clone, Copy, PartialEq)]
pub enum Signal {
    Break,
    Continue,
    Unit,
    Return(WabbitType),
}

/// The specification-level form of an evaluation result.
pub open spec fn val_view(r: Result<WabbitType, Diagnostic>) -> Result<
    WabbitType,
    SpecDiagnostic,
> {
    match r {
        Ok(v) => Ok(v),
        Err(d) => Err(d@),
    }
}

/// The specification-level form of an execution result.
pub open spec fn sig_view(r: Result<Signal, Diagnostic>) -> Result<Signal, SpecDiagnostic> {
    match r {
        Ok(s) => Ok(s),
        Err(d) => Err(d@),
    }
}

/// The specification-level form of a condition-evaluation result.
pub open spec fn bool_view(r: Result<bool, Diagnostic>) -> Result<bool, SpecDiagnostic> {
    match r {
        Ok(b) => Ok(b),
        Err(d) => Err(d@),
    }
}

/// The low byte of an integer read as a character, as a conversion from
/// `int` to `char` does.
pub open spec fn spec_byte_char(i: i32) -> char {
    (((i as int % 256) + 256) % 256) as u8 as char
}

pub(crate) fn byte_char(i: i32) -> (r: char)
    ensures
        r == spec_byte_char(i),
{
    let v: i64 = i as i64;
    let m: i64 = ((v % 256) + 256) % 256;
    (m as u8) as char
}

/// The value of a binary operation on two runtime values, or the diagnostic
/// refusing it.  Integer arithmetic wraps; integer division by zero (and
/// the one quotient that overflows) is refused cleanly; float arithmetic is
/// not performed by this interpreter.
pub open spec fn ev_binary(op: BinaryOp, l: WabbitType, r: WabbitType, id: usize) -> Result<
    WabbitType,
    SpecDiagnostic,
> {
    if l.spec_dtype() != r.spec_dtype() {
        Err(spec_diag0(Msg::TypeMatch, id))
    } else {
        match op {
            BinaryOp::Plus => match (l, r) {
                (WabbitType::Int(a), WabbitType::Int(b)) => Ok(
                    WabbitType::Int(a.wrapping_add(b)),
                ),
                (WabbitType::Float(a), WabbitType::Float(b)) => Err(
                    spec_diag0(Msg::FloatUnsupported, id),
                ),
                _ => Err(spec_diag1(Msg::ExpectType, id, "int, float"@)),
            },
            BinaryOp::Minus => match (l, r) {
                (WabbitType::Int(a), WabbitType::Int(b)) => Ok(
                    WabbitType::Int(a.wrapping_sub(b)),
                ),
                (WabbitType::Float(a), WabbitType::Float(b)) => Err(
                    spec_diag0(Msg::FloatUnsupported, id),
                ),
                _ => Err(spec_diag1(Msg::ExpectType, id, "int, float"@)),
            },
            BinaryOp::Times => match (l, r) {
                (WabbitType::Int(a), WabbitType::Int(b)) => Ok(
                    WabbitType::Int(a.wrapping_mul(b)),
                ),
                (WabbitType::Float(a), WabbitType::Float(b)) => Err(
                    spec_diag0(Msg::FloatUnsupported, id),
                ),
                _ => Err(spec_diag1(Msg::ExpectType, id, "int, float"@)),
            },
            BinaryOp::Divide => match (l, r) {
                (WabbitType::Int(a), WabbitType::Int(b)) => match a.checked_div(b) {
                    Some(q) => Ok(WabbitType::Int(q)),
                    None => Err(spec_diag0(Msg::DivByZero, id)),
                },
                (WabbitType::Float(a), WabbitType::Float(b)) => Err(
                    spec_diag0(Msg::FloatUnsupported, id),
                ),
                _ => Err(spec_diag1(Msg::ExpectType, id, "int, float"@)),
            },
            BinaryOp::Less => match (l, r) {
                (WabbitType::Int(a), WabbitType::Int(b)) => Ok(WabbitType::Bool(a < b)),
                (WabbitType::Char(a), WabbitType::Char(b)) => Ok(
                    WabbitType::Bool((a as u32) < (b as u32)),
                ),
                (WabbitType::Float(a), WabbitType::Float(b)) => Err(
                    spec_diag0(Msg::FloatUnsupported, id),
                ),
                _ => Err(spec_diag1(Msg::ExpectType, id, "int, float, char"@)),
            },
            BinaryOp::LessEqual => match (l, r) {
                (WabbitType::Int(a), WabbitType::Int(b)) => Ok(WabbitType::Bool(a <= b)),
                (WabbitType::Char(a), WabbitType::Char(b)) => Ok(
                    WabbitType::Bool((a as u32) <= (b as u32)),
                ),
                (WabbitType::Float(a), WabbitType::Float(b)) => Err(
                    spec_diag0(Msg::FloatUnsupported, id),
                ),
                _ => Err(spec_diag1(Msg::ExpectType, id, "int, float, char"@)),
            },
            BinaryOp::Greater => match (l, r) {
                (WabbitType::Int(a), WabbitType::Int(b)) => Ok(WabbitType::Bool(a > b)),
                (WabbitType::Char(a), WabbitType::Char(b)) => Ok(
                    WabbitType::Bool((a as u32) > (b as u32)),
                ),
                (WabbitType::Float(a), WabbitType::Float(b)) => Err(
                    spec_diag0(Msg::FloatUnsupported, id),
                ),
                _ => Err(spec_diag1(Msg::ExpectType, id, "int, float, char"@)),
            },
            BinaryOp::GreaterEqual => match (l, r) {
                (WabbitType::Int(a), WabbitType::Int(b)) => Ok(WabbitType::Bool(a >= b)),
                (WabbitType::Char(a), WabbitType::Char(b)) => Ok(
                    WabbitType::Bool((a as u32) >= (b as u32)),
                ),
                (WabbitType::Float(a), WabbitType::Float(b)) => Err(
                    spec_diag0(Msg::FloatUnsupported, id),
                ),
                _ => Err(spec_diag1(Msg::ExpectType, id, "int, float, char"@)),
            },
            BinaryOp::EqualEqual => match (l, r) {
                (WabbitType::Int(a), WabbitType::Int(b)) => Ok(WabbitType::Bool(a == b)),
                (WabbitType::Char(a), WabbitType::Char(b)) => Ok(WabbitType::Bool(a == b)),
                (WabbitType::Bool(a), WabbitType::Bool(b)) => Ok(WabbitType::Bool(a == b)),
                (WabbitType::Float(a), WabbitType::Float(b)) => Err(
                    spec_diag0(Msg::FloatUnsupported, id),
                ),
                _ => Err(spec_diag1(Msg::ExpectType, id, "int, float, char, bool"@)),
            },
            BinaryOp::NotEqual => match (l, r) {
                (WabbitType::Int(a), WabbitType::Int(b)) => Ok(WabbitType::Bool(a != b)),
                (WabbitType::Char(a), WabbitType::Char(b)) => Ok(WabbitType::Bool(a != b)),
                (WabbitType::Bool(a), WabbitType::Bool(b)) => Ok(WabbitType::Bool(a != b)),
                (WabbitType::Float(a), WabbitType::Float(b)) => Err(
                    spec_diag0(Msg::FloatUnsupported, id),
                ),
                _ => Err(spec_diag1(Msg::ExpectType, id, "int, float, char, bool"@)),
            },
        }
    }
}

/// The value of unary plus: the identity on numeric values.
pub open spec fn ev_plus(v: WabbitType, id: usize) -> Result<WabbitType, SpecDiagnostic> {
    match v {
        WabbitType::Int(a) => Ok(WabbitType::Int(a)),
        WabbitType::Float(a) => Ok(WabbitType::Float(a)),
        _ => Err(spec_diag1(Msg::ExpectType, id, "int, float"@)),
    }
}

/// The value of unary minus: wrapping negation on integers; float negation
/// is not performed by this interpreter.
pub open spec fn ev_minus(v: WabbitType, id: usize) -> Result<WabbitType, SpecDiagnostic> {
    match v {
        WabbitType::Int(a) => Ok(WabbitType::Int((0 as i32).wrapping_sub(a))),
        WabbitType::Float(a) => Err(spec_diag0(Msg::FloatUnsupported, id)),
        _ => Err(spec_diag1(Msg::ExpectType, id, "int, float"@)),
    }
}

/// The value of a type conversion applied to a runtime value, or the
/// diagnostic refusing it.
pub open spec fn ev_convert(target: Type, v: WabbitType, id: usize) -> Result<
    WabbitType,
    SpecDiagnostic,
> {
    match (target, v) {
        (Type::Int, WabbitType::Char(c)) => Ok(WabbitType::Int(c as i32)),
        (Type::Int, WabbitType::Bool(b)) => Ok(
            WabbitType::Int(
                if b {
                    1
                } else {
                    0
                },
            ),
        ),
        (Type::Int, WabbitType::Float(f)) => Err(spec_diag0(Msg::FloatUnsupported, id)),
        (Type::Float, WabbitType::Int(i)) => Err(spec_diag0(Msg::FloatUnsupported, id)),
        (Type::Char, WabbitType::Int(i)) => Ok(WabbitType::Char(spec_byte_char(i))),
        (Type::Bool, WabbitType::Int(i)) => Ok(WabbitType::Bool(i == 1)),
        (Type::Bool, WabbitType::Bool(b)) => Ok(v),
        (Type::Int, WabbitType::Int(i)) => Ok(v),
        (Type::Float, WabbitType::Float(f)) => Ok(v),
        (Type::Char, WabbitType::Char(c)) => Ok(v),
        _ => Err(spec_diag0(Msg::TypeConvert, id)),
    }
}

/// What evaluating an expression does to the interpretation state, and the
/// value it produces or the first diagnostic it raises.  Every node visited
/// costs one unit of fuel; running out is reported as a clean diagnostic.
/// A call executes its body against the global frame plus the fresh
/// parameter frame alone, so a callee never sees the caller's locals —
/// the same definition-time view the typechecking pass proves the body
/// under.
pub open spec fn ev_expr(st: SpecState<WabbitType>, e: Expr, fuel: nat) -> (SpecState<WabbitType>, Result<
    WabbitType,
    SpecDiagnostic,
>)
    decreases fuel, e, 0int,
{
    if fuel == 0 {
        (st, Err(spec_diag0(Msg::StepLimit, e.spec_id())))
    } else {
        let f = (fuel - 1) as nat;
        match e {
            Expr::Literal { value, id } => (st, Ok(value)),
            Expr::Grouping { e: inner, id } => ev_expr(st, *inner, f),
            Expr::TypeName { dtype, id } => (st, Err(spec_diag0(Msg::TypeEval, id))),
            Expr::VarName { name, id } => match assoc_find(st.constants, name@) {
                Some(v) => (st, Ok(v)),
                None => match env_find(st.env, name@) {
                    Some(VarStore::Init(v)) => (st, Ok(v)),
                    Some(VarStore::UnInit(v)) => (
                        st,
                        Err(spec_diag1(Msg::AccessUninit, id, name@)),
                    ),
                    None => (st, Err(spec_diag0(Msg::VarUndefined, id))),
                },
            },
            Expr::TypeConversion { dtype, params, id } => {
                if params@.len() != 1 {
                    (st, Err(spec_diag0(Msg::ConvertAirty, id)))
                } else {
                    let (st1, r) = ev_expr(st, params@[0], f);
                    match r {
                        Err(d) => (st1, Err(d)),
                        Ok(v) => (st1, ev_convert(dtype, v, id)),
                    }
                }
            },
            Expr::Unary { op, operand, id } => {
                let (st1, r) = ev_expr(st, *operand, f);
                match r {
                    Err(d) => (st1, Err(d)),
                    Ok(v) => match op {
                        UnaryOp::LogicalNot => match v {
                            WabbitType::Bool(b) => (st1, Ok(WabbitType::Bool(!b))),
                            _ => (st1, Err(spec_diag1(Msg::ExpectType, id, "bool"@))),
                        },
                        UnaryOp::Plus => (st1, ev_plus(v, id)),
                        UnaryOp::Minus => (st1, ev_minus(v, id)),
                    },
                }
            },
            Expr::Logical { lhs, op, rhs, id } => {
                let (st1, rb) = ev_bool(st, *lhs, id, f);
                match rb {
                    Err(d) => (st1, Err(d)),
                    Ok(b) => match op {
                        LogicalOp::LogicalOr => {
                            if b {
                                (st1, Ok(WabbitType::Bool(true)))
                            } else {
                                let (st2, rb2) = ev_bool(st1, *rhs, id, f);
                                match rb2 {
                                    Err(d) => (st2, Err(d)),
                                    Ok(b2) => (st2, Ok(WabbitType::Bool(b2))),
                                }
                            }
                        },
                        LogicalOp::LogicalAnd => {
                            if !b {
                                (st1, Ok(WabbitType::Bool(false)))
                            } else {
                                let (st2, rb2) = ev_bool(st1, *rhs, id, f);
                                match rb2 {
                                    Err(d) => (st2, Err(d)),
                                    Ok(b2) => (st2, Ok(WabbitType::Bool(b2))),
                                }
                            }
                        },
                    },
                }
            },
            Expr::Binary { lhs, op, rhs, id } => {
                let (st1, rl) = ev_expr(st, *lhs, f);
                match rl {
                    Err(d) => (st1, Err(d)),
                    Ok(l) => {
                        let (st2, rr) = ev_expr(st1, *rhs, f);
                        match rr {
                            Err(d) => (st2, Err(d)),
                            Ok(r) => (st2, ev_binary(op, l, r, id)),
                        }
                    },
                }
            },
            Expr::Call { name, params, id } => match assoc_find(st.functions, name@) {
                Some(found) => match found {
                    Stmt::FuncDef { def_name, def_params, return_type, body, id: def_id } => {
                        if params@.len() != def_params@.len() {
                            (
                                st,
                                Err(
                                    spec_diag3(
                                        Msg::FuncAirty,
                                        def_id,
                                        name@,
                                        decimal_of(def_params@.len()),
                                        decimal_of(params@.len()),
                                    ),
                                ),
                            )
                        } else {
                            let (st1, ra) = ev_args(
                                st,
                                params@,
                                def_params@,
                                def_id,
                                f,
                                Seq::empty(),
                            );
                            match ra {
                                Err(d) => (st1, Err(d)),
                                Ok(frame) => {
                                    if has_dup_params(def_params@) {
                                        (st1, Err(spec_diag0(Msg::DupArgs, def_id)))
                                    } else {
                                        let entered = SpecState {
                                            env: seq![st1.env[0], frame],
                                            call_depth: inc64(st1.call_depth),
                                            ..st1
                                        };
                                        let (st2, rs) = ev_stmt(entered, *body, f);
                                        match rs {
                                            Err(d) => (st2, Err(d)),
                                            Ok(sig) => {
                                                let (st3, ex) = spec_exit(st2, def_id);
                                                match ex {
                                                    Err(d) => (st3, Err(d)),
                                                    Ok(u) => {
                                                        let restored = SpecState {
                                                            env: st3.env + st1.env.drop_first(),
                                                            call_depth: st1.call_depth,
                                                            ..st3
                                                        };
                                                        match sig {
                                                            Signal::Return(v) => {
                                                                if v.spec_dtype() != return_type {
                                                                    (
                                                                        restored,
                                                                        Err(
                                                                            spec_diag3(
                                                                                Msg::ReturnType,
                                                                                def_id,
                                                                                name@,
                                                                                return_type.spec_name(),
                                                                                v.spec_dtype().spec_name(),
                                                                            ),
                                                                        ),
                                                                    )
                                                                } else {
                                                                    (restored, Ok(v))
                                                                }
                                                            },
                                                            _ => (
                                                                restored,
                                                                Err(
                                                                    spec_diag0(
                                                                        Msg::NoReturn,
                                                                        def_id,
                                                                    ),
                                                                ),
                                                            ),
                                                        }
                                                    },
                                                }
                                            },
                                        }
                                    }
                                },
                            }
                        }
                    },
                    _ => (st, Err(spec_diag0(Msg::FuncUndefined, id))),
                },
                None => (st, Err(spec_diag0(Msg::FuncUndefined, id))),
            },
        }
    }
}

/// An expression evaluated and required to be a boolean at runtime.
pub open spec fn ev_bool(st: SpecState<WabbitType>, e: Expr, id: usize, fuel: nat) -> (SpecState<
    WabbitType,
>, Result<bool, SpecDiagnostic>)
    decreases fuel, e, 1int,
{
    let (st1, r) = ev_expr(st, e, fuel);
    match r {
        Err(d) => (st1, Err(d)),
        Ok(WabbitType::Bool(b)) => (st1, Ok(b)),
        Ok(v) => (st1, Err(spec_diag1(Msg::ExpectType, id, "bool"@))),
    }
}

/// Call arguments evaluated eagerly, left to right, each checked against
/// its declared parameter type and bound, in order, into the fresh call
/// frame.
pub open spec fn ev_args(
    st: SpecState<WabbitType>,
    args: Seq<Expr>,
    params: Seq<(String, Type)>,
    def_id: usize,
    fuel: nat,
    acc: SpecFrame<WabbitType>,
) -> (SpecState<WabbitType>, Result<SpecFrame<WabbitType>, SpecDiagnostic>)
    decreases fuel, args, 0int,
{
    if args.len() == 0 {
        (st, Ok(acc))
    } else {
        let (st1, r) = ev_expr(st, args[0], fuel);
        match r {
            Err(d) => (st1, Err(d)),
            Ok(v) => {
                if params.len() > 0 && v.spec_dtype() != params[0].1 {
                    (
                        st1,
                        Err(
                            spec_diag3(
                                Msg::ParamType,
                                def_id,
                                params[0].0@,
                                params[0].1.spec_name(),
                                v.spec_dtype().spec_name(),
                            ),
                        ),
                    )
                } else {
                    ev_args(
                        st1,
                        args.drop_first(),
                        params.drop_first(),
                        def_id,
                        fuel,
                        acc.push(
                            (
                                if params.len() > 0 {
                                    params[0].0@
                                } else {
                                    Seq::empty()
                                },
                                VarStore::Init(v),
                            ),
                        ),
                    )
                }
            },
        }
    }
}

/// What executing one statement does to the interpretation state, and the
/// control-flow signal it produces or the first diagnostic it raises.
pub open spec fn ev_stmt(st: SpecState<WabbitType>, s: Stmt, fuel: nat) -> (SpecState<WabbitType>, Result<
    Signal,
    SpecDiagnostic,
>)
    decreases fuel, s, 0int,
{
    if fuel == 0 {
        (st, Err(spec_diag0(Msg::StepLimit, s.spec_id())))
    } else {
        let f = (fuel - 1) as nat;
        match s {
            Stmt::FuncDef { def_name, def_params, return_type, body, id } => {
                if st.env.len() != 1 {
                    (st, Err(spec_diag0(Msg::FuncDefScope, id)))
                } else if spec_check_constant(st, def_name@, id) is Err {
                    (st, Err(spec_check_constant(st, def_name@, id)->Err_0))
                } else if spec_check_env(st, def_name@, id) is Err {
                    (st, Err(spec_check_env(st, def_name@, id)->Err_0))
                } else if spec_check_function(st, def_name@, id) is Err {
                    (st, Err(spec_check_function(st, def_name@, id)->Err_0))
                } else {
                    (
                        SpecState { functions: st.functions.push((def_name@, s)), ..st },
                        Ok(Signal::Unit),
                    )
                }
            },
            Stmt::Return { value, id } => {
                let (st1, r) = ev_expr(st, value, f);
                match r {
                    Err(d) => (st1, Err(d)),
                    Ok(v) => {
                        if st1.call_depth > 0 {
                            (st1, Ok(Signal::Return(v)))
                        } else {
                            (st1, Err(spec_diag0(Msg::ReturnScope, id)))
                        }
                    },
                }
            },
            Stmt::Expr(e) => {
                let (st1, r) = ev_expr(st, e, f);
                match r {
                    Err(d) => (st1, Err(d)),
                    Ok(v) => (st1, Ok(Signal::Unit)),
                }
            },
            Stmt::Assign { name, value, id } => {
                if spec_check_constant(st, name@, id) is Err {
                    (st, Err(spec_check_constant(st, name@, id)->Err_0))
                } else if spec_check_function(st, name@, id) is Err {
                    (st, Err(spec_check_function(st, name@, id)->Err_0))
                } else {
                    let (st1, r) = ev_expr(st, value, f);
                    match r {
                        Err(d) => (st1, Err(d)),
                        Ok(v) => match env_find(st1.env, name@) {
                            Some(slot) => {
                                if slot.stored().spec_dtype() == v.spec_dtype() {
                                    (
                                        SpecState {
                                            env: env_assign(st1.env, name@, v),
                                            ..st1
                                        },
                                        Ok(Signal::Unit),
                                    )
                                } else {
                                    (
                                        st1,
                                        Err(
                                            spec_diag3(
                                                Msg::AssignRetype,
                                                id,
                                                name@,
                                                slot.stored().spec_dtype().spec_name(),
                                                v.spec_dtype().spec_name(),
                                            ),
                                        ),
                                    )
                                }
                            },
                            None => (st1, Err(spec_diag0(Msg::AssignUndefined, id))),
                        },
                    }
                }
            },
            Stmt::While { condition, body, id } => {
                let (st1, rb) = ev_bool(st, condition, id, f);
                match rb {
                    Err(d) => (st1, Err(d)),
                    Ok(b) => {
                        if !b {
                            (st1, Ok(Signal::Unit))
                        } else {
                            let entered = SpecState {
                                env: st1.env.push(Seq::empty()),
                                loop_depth: inc64(st1.loop_depth),
                                ..st1
                            };
                            let (st2, rs) = ev_stmt(entered, *body, f);
                            match rs {
                                Err(d) => (st2, Err(d)),
                                Ok(sig) => match sig {
                                    Signal::Unit | Signal::Continue => {
                                        let restored = SpecState {
                                            loop_depth: st1.loop_depth,
                                            ..st2
                                        };
                                        let (st3, ex) = spec_exit(restored, id);
                                        match ex {
                                            Err(d) => (st3, Err(d)),
                                            Ok(u) => ev_stmt(st3, s, f),
                                        }
                                    },
                                    Signal::Return(v) => {
                                        let (st3, ex) = spec_exit(st2, id);
                                        match ex {
                                            Err(d) => (st3, Err(d)),
                                            Ok(u) => (
                                                SpecState { loop_depth: st1.loop_depth, ..st3 },
                                                Ok(Signal::Return(v)),
                                            ),
                                        }
                                    },
                                    Signal::Break => {
                                        let (st3, ex) = spec_exit(st2, id);
                                        match ex {
                                            Err(d) => (st3, Err(d)),
                                            Ok(u) => (
                                                SpecState { loop_depth: st1.loop_depth, ..st3 },
                                                Ok(Signal::Unit),
                                            ),
                                        }
                                    },
                                },
                            }
                        }
                    },
                }
            },
            Stmt::ConstDef { name, maybe_type, value, id } => {
                if spec_check_constant(st, name@, id) is Err {
                    (st, Err(spec_check_constant(st, name@, id)->Err_0))
                } else if spec_check_env(st, name@, id) is Err {
                    (st, Err(spec_check_env(st, name@, id)->Err_0))
                } else if spec_check_function(st, name@, id) is Err {
                    (st, Err(spec_check_function(st, name@, id)->Err_0))
                } else if st.env.len() != 1 {
                    (st, Err(spec_diag0(Msg::ConstScope, id)))
                } else {
                    let (st1, r) = ev_expr(st, value, f);
                    match r {
                        Err(d) => (st1, Err(d)),
                        Ok(v) => {
                            if maybe_type is None || maybe_type == Some(v.spec_dtype()) {
                                (
                                    SpecState {
                                        constants: st1.constants.push((name@, v)),
                                        ..st1
                                    },
                                    Ok(Signal::Unit),
                                )
                            } else {
                                (st1, Err(spec_diag0(Msg::InitType, id)))
                            }
                        },
                    }
                }
            },
            Stmt::VarDef { name, maybe_type, maybe_value, id } => {
                if spec_check_constant(st, name@, id) is Err {
                    (st, Err(spec_check_constant(st, name@, id)->Err_0))
                } else if spec_check_env(st, name@, id) is Err {
                    (st, Err(spec_check_env(st, name@, id)->Err_0))
                } else if spec_check_function(st, name@, id) is Err {
                    (st, Err(spec_check_function(st, name@, id)->Err_0))
                } else {
                    match (maybe_type, maybe_value) {
                        (Some(typename), Some(value)) => {
                            let (st1, r) = ev_expr(st, value, f);
                            match r {
                                Err(d) => (st1, Err(d)),
                                Ok(v) => {
                                    if typename == v.spec_dtype() {
                                        (
                                            SpecState {
                                                env: env_define(
                                                    st1.env,
                                                    name@,
                                                    VarStore::Init(v),
                                                ),
                                                ..st1
                                            },
                                            Ok(Signal::Unit),
                                        )
                                    } else {
                                        (st1, Err(spec_diag0(Msg::InitType, id)))
                                    }
                                },
                            }
                        },
                        (None, Some(value)) => {
                            let (st1, r) = ev_expr(st, value, f);
                            match r {
                                Err(d) => (st1, Err(d)),
                                Ok(v) => (
                                    SpecState {
                                        env: env_define(st1.env, name@, VarStore::Init(v)),
                                        ..st1
                                    },
                                    Ok(Signal::Unit),
                                ),
                            }
                        },
                        (Some(typename), None) => (
                            SpecState {
                                env: env_define(
                                    st.env,
                                    name@,
                                    VarStore::UnInit(WabbitType::TypeHolder(typename)),
                                ),
                                ..st
                            },
                            Ok(Signal::Unit),
                        ),
                        (None, None) => (
                            st,
                            Err(
                                spec_diag1(
                                    Msg::InternalErr,
                                    id,
                                    "Parser allowed variable definition without type or initial value"@,
                                ),
                            ),
                        ),
                    }
                }
            },
            Stmt::If { condition, then_block, maybe_else_block, id } => {
                let (st1, rb) = ev_bool(st, condition, id, f);
                match rb {
                    Err(d) => (st1, Err(d)),
                    Ok(b) => {
                        let entered = SpecState { env: st1.env.push(Seq::empty()), ..st1 };
                        let (st2, rs) = if b {
                            ev_stmt(entered, *then_block, f)
                        } else {
                            match maybe_else_block {
                                Some(else_block) => ev_stmt(entered, *else_block, f),
                                None => (entered, Ok(Signal::Unit)),
                            }
                        };
                        match rs {
                            Err(d) => (st2, Err(d)),
                            Ok(sig) => {
                                let (st3, ex) = spec_exit(st2, id);
                                match ex {
                                    Err(d) => (st3, Err(d)),
                                    Ok(u) => (st3, Ok(sig)),
                                }
                            },
                        }
                    },
                }
            },
            Stmt::Block { statements, id } => ev_block(st, statements@, f),
            Stmt::LoopControl { control, id } => {
                if st.loop_depth > 0 {
                    match control {
                        LoopControl::Break => (st, Ok(Signal::Break)),
                        LoopControl::Continue => (st, Ok(Signal::Continue)),
                    }
                } else {
                    (st, Err(spec_diag0(Msg::LoopReq, id)))
                }
            },
            Stmt::Print { value, id } => {
                let (st1, r) = ev_expr(st, value, f);
                match r {
                    Err(d) => (st1, Err(d)),
                    Ok(v) => (
                        SpecState { output: st1.output.push(v), ..st1 },
                        Ok(Signal::Unit),
                    ),
                }
            },
        }
    }
}

/// A block's statements executed in order; the first non-`Unit` signal
/// stops the block and is passed up.
pub open spec fn ev_block(st: SpecState<WabbitType>, stmts: Seq<Stmt>, fuel: nat) -> (SpecState<
    WabbitType,
>, Result<Signal, SpecDiagnostic>)
    decreases fuel, stmts, 0int,
{
    if stmts.len() == 0 {
        (st, Ok(Signal::Unit))
    } else {
        let (st1, r) = ev_stmt(st, stmts[0], fuel);
        match r {
            Err(d) => (st1, Err(d)),
            Ok(Signal::Unit) => ev_block(st1, stmts.drop_first(), fuel),
            Ok(sig) => (st1, Ok(sig)),
        }
    }
}

/// A whole program executed statement by statement, stopping at the first
/// diagnostic.  Each top-level statement receives the full fuel budget.
pub open spec fn ev_program(st: SpecState<WabbitType>, stmts: Seq<Stmt>, fuel: nat) -> (SpecState<
    WabbitType,
>, Result<(), SpecDiagnostic>)
    decreases stmts.len(),
{
    if stmts.len() == 0 {
        (st, Ok(()))
    } else {
        let (st1, r) = ev_stmt(st, stmts[0], fuel);
        match r {
            Err(d) => (st1, Err(d)),
            Ok(sig) => ev_program(st1, stmts.drop_first(), fuel),
        }
    }
}


/// The value of a binary operation, as [`ev_binary`] states it.
pub(crate) fn eval_binary(op: BinaryOp, l: WabbitType, r: WabbitType, id: usize) -> (res: Result<
    WabbitType,
    Diagnostic,
>)
    ensures
        val_view(res) == ev_binary(op, l, r, id),
{
    if !(l.dtype() == r.dtype()) {
        return Err(diag0(Msg::TypeMatch, id));
    }
    match op {
        BinaryOp::Plus => match (l, r) {
            (WabbitType::Int(a), WabbitType::Int(b)) => Ok(WabbitType::Int(a.wrapping_add(b))),
            (WabbitType::Float(a), WabbitType::Float(b)) => Err(
                diag0(Msg::FloatUnsupported, id),
            ),
            _ => Err(diag1(Msg::ExpectType, id, "int, float".to_owned())),
        },
        BinaryOp::Minus => match (l, r) {
            (WabbitType::Int(a), WabbitType::Int(b)) => Ok(WabbitType::Int(a.wrapping_sub(b))),
            (WabbitType::Float(a), WabbitType::Float(b)) => Err(
                diag0(Msg::FloatUnsupported, id),
            ),
            _ => Err(diag1(Msg::ExpectType, id, "int, float".to_owned())),
        },
        BinaryOp::Times => match (l, r) {
            (WabbitType::Int(a), WabbitType::Int(b)) => Ok(WabbitType::Int(a.wrapping_mul(b))),
            (WabbitType::Float(a), WabbitType::Float(b)) => Err(
                diag0(Msg::FloatUnsupported, id),
            ),
            _ => Err(diag1(Msg::ExpectType, id, "int, float".to_owned())),
        },
        BinaryOp::Divide => match (l, r) {
            (WabbitType::Int(a), WabbitType::Int(b)) => match a.checked_div(b) {
                Some(q) => Ok(WabbitType::Int(q)),
                None => Err(diag0(Msg::DivByZero, id)),
            },
            (WabbitType::Float(a), WabbitType::Float(b)) => Err(
                diag0(Msg::FloatUnsupported, id),
            ),
            _ => Err(diag1(Msg::ExpectType, id, "int, float".to_owned())),
        },
        BinaryOp::Less => match (l, r) {
            (WabbitType::Int(a), WabbitType::Int(b)) => Ok(WabbitType::Bool(a < b)),
            (WabbitType::Char(a), WabbitType::Char(b)) => Ok(
                WabbitType::Bool((a as u32) < (b as u32)),
            ),
            (WabbitType::Float(a), WabbitType::Float(b)) => Err(
                diag0(Msg::FloatUnsupported, id),
            ),
            _ => Err(diag1(Msg::ExpectType, id, "int, float, char".to_owned())),
        },
        BinaryOp::LessEqual => match (l, r) {
            (WabbitType::Int(a), WabbitType::Int(b)) => Ok(WabbitType::Bool(a <= b)),
            (WabbitType::Char(a), WabbitType::Char(b)) => Ok(
                WabbitType::Bool((a as u32) <= (b as u32)),
            ),
            (WabbitType::Float(a), WabbitType::Float(b)) => Err(
                diag0(Msg::FloatUnsupported, id),
            ),
            _ => Err(diag1(Msg::ExpectType, id, "int, float, char".to_owned())),
        },
        BinaryOp::Greater => match (l, r) {
            (WabbitType::Int(a), WabbitType::Int(b)) => Ok(WabbitType::Bool(a > b)),
            (WabbitType::Char(a), WabbitType::Char(b)) => Ok(
                WabbitType::Bool((a as u32) > (b as u32)),
            ),
            (WabbitType::Float(a), WabbitType::Float(b)) => Err(
                diag0(Msg::FloatUnsupported, id),
            ),
            _ => Err(diag1(Msg::ExpectType, id, "int, float, char".to_owned())),
        },
        BinaryOp::GreaterEqual => match (l, r) {
            (WabbitType::Int(a), WabbitType::Int(b)) => Ok(WabbitType::Bool(a >= b)),
            (WabbitType::Char(a), WabbitType::Char(b)) => Ok(
                WabbitType::Bool((a as u32) >= (b as u32)),
            ),
            (WabbitType::Float(a), WabbitType::Float(b)) => Err(
                diag0(Msg::FloatUnsupported, id),
            ),
            _ => Err(diag1(Msg::ExpectType, id, "int, float, char".to_owned())),
        },
        BinaryOp::EqualEqual => match (l, r) {
            (WabbitType::Int(a), WabbitType::Int(b)) => Ok(WabbitType::Bool(a == b)),
            (WabbitType::Char(a), WabbitType::Char(b)) => Ok(WabbitType::Bool(a == b)),
            (WabbitType::Bool(a), WabbitType::Bool(b)) => Ok(WabbitType::Bool(a == b)),
            (WabbitType::Float(a), WabbitType::Float(b)) => Err(
                diag0(Msg::FloatUnsupported, id),
            ),
            _ => Err(diag1(Msg::ExpectType, id, "int, float, char, bool".to_owned())),
        },
        BinaryOp::NotEqual => match (l, r) {
            (WabbitType::Int(a), WabbitType::Int(b)) => Ok(WabbitType::Bool(a != b)),
            (WabbitType::Char(a), WabbitType::Char(b)) => Ok(WabbitType::Bool(a != b)),
            (WabbitType::Bool(a), WabbitType::Bool(b)) => Ok(WabbitType::Bool(a != b)),
            (WabbitType::Float(a), WabbitType::Float(b)) => Err(
                diag0(Msg::FloatUnsupported, id),
            ),
            _ => Err(diag1(Msg::ExpectType, id, "int, float, char, bool".to_owned())),
        },
    }
}

/// The value of unary plus, as [`ev_plus`] states it.
pub(crate) fn eval_plus(v: WabbitType, id: usize) -> (res: Result<WabbitType, Diagnostic>)
    ensures
        val_view(res) == ev_plus(v, id),
{
    match v {
        WabbitType::Int(a) => Ok(WabbitType::Int(a)),
        WabbitType::Float(a) => Ok(WabbitType::Float(a)),
        _ => Err(diag1(Msg::ExpectType, id, "int, float".to_owned())),
    }
}

/// The value of unary minus, as [`ev_minus`] states it.
pub(crate) fn eval_minus(v: WabbitType, id: usize) -> (res: Result<WabbitType, Diagnostic>)
    ensures
        val_view(res) == ev_minus(v, id),
{
    match v {
        WabbitType::Int(a) => Ok(WabbitType::Int((0 as i32).wrapping_sub(a))),
        WabbitType::Float(a) => Err(diag0(Msg::FloatUnsupported, id)),
        _ => Err(diag1(Msg::ExpectType, id, "int, float".to_owned())),
    }
}

/// The value of a type conversion, as [`ev_convert`] states it.
pub(crate) fn eval_convert(target: Type, v: WabbitType, id: usize) -> (res: Result<
    WabbitType,
    Diagnostic,
>)
    ensures
        val_view(res) == ev_convert(target, v, id),
{
    match (target, v) {
        (Type::Int, WabbitType::Char(c)) => Ok(WabbitType::Int(c as i32)),
        (Type::Int, WabbitType::Bool(b)) => Ok(
            WabbitType::Int(
                if b {
                    1
                } else {
                    0
                },
            ),
        ),
        (Type::Int, WabbitType::Float(f)) => Err(diag0(Msg::FloatUnsupported, id)),
        (Type::Float, WabbitType::Int(i)) => Err(diag0(Msg::FloatUnsupported, id)),
        (Type::Char, WabbitType::Int(i)) => Ok(WabbitType::Char(byte_char(i))),
        (Type::Bool, WabbitType::Int(i)) => Ok(WabbitType::Bool(i == 1)),
        (Type::Bool, WabbitType::Bool(b)) => Ok(v),
        (Type::Int, WabbitType::Int(i)) => Ok(v),
        (Type::Float, WabbitType::Float(f)) => Ok(v),
        (Type::Char, WabbitType::Char(c)) => Ok(v),
        _ => Err(diag0(Msg::TypeConvert, id)),
    }
}

impl<'a> Analyzer<'a, WabbitType> {
    /// Evaluate an expression and require it to be a boolean at runtime.
    #[verifier::loop_isolation(false)]
    pub(crate) fn typecheck_bool(&mut self, e: &'a Expr, id: usize, fuel: u64) -> (r: Result<
        bool,
        Diagnostic,
    >)
        requires
            old(self).wf(),
        ensures
            final(self).wf(),
            ({
                let (st2, r2) = ev_bool(old(self).st(), *e, id, fuel as nat);
                final(self).st() == st2 && bool_view(r) == r2
            }),
        decreases fuel, *e, 1int,
    {
        let v = match self.evaluate(e, fuel) {
            Ok(v) => v,
            Err(d) => {
                return Err(d);
            },
        };
        match v {
            WabbitType::Bool(b) => Ok(b),
            _ => Err(diag1(Msg::ExpectType, id, "bool".to_owned())),
        }
    }

    /// Evaluate a single expression for its value, with its side effects on
    /// the interpretation state.
    #[verifier::loop_isolation(false)]
    #[verifier::rlimit(100)]
    pub(crate) fn evaluate(&mut self, e: &'a Expr, fuel: u64) -> (r: Result<
        WabbitType,
        Diagnostic,
    >)
        requires
            old(self).wf(),
        ensures
            final(self).wf(),
            ({
                let (st2, r2) = ev_expr(old(self).st(), *e, fuel as nat);
                final(self).st() == st2 && val_view(r) == r2
            }),
        decreases fuel, *e, 0int,
    {
        if fuel == 0 {
            return Err(diag0(Msg::StepLimit, e.node_id()));
        }
        let f = fuel - 1;
        match e {
            Expr::Literal { value, id } => Ok(*value),
            Expr::Grouping { e: inner, id } => self.evaluate(&**inner, f),
            Expr::TypeName { dtype, id } => Err(diag0(Msg::TypeEval, *id)),
            Expr::VarName { name, id } => match self.const_get(name) {
                Some(v) => Ok(v),
                None => match self.env.get(name) {
                    Some(VarStore::Init(v)) => Ok(v),
                    Some(VarStore::UnInit(v)) => Err(diag1(Msg::AccessUninit, *id, name.clone())),
                    None => Err(diag0(Msg::VarUndefined, *id)),
                },
            },
            Expr::TypeConversion { dtype, params, id } => {
                if params.len() != 1 {
                    Err(diag0(Msg::ConvertAirty, *id))
                } else {
                    match self.evaluate(&params[0], f) {
                        Err(d) => Err(d),
                        Ok(v) => eval_convert(*dtype, v, *id),
                    }
                }
            },
            Expr::Unary { op, operand, id } => {
                let v = match self.evaluate(&**operand, f) {
                    Ok(v) => v,
                    Err(d) => {
                        return Err(d);
                    },
                };
                match op {
                    UnaryOp::LogicalNot => match v {
                        WabbitType::Bool(b) => Ok(WabbitType::Bool(!b)),
                        _ => Err(diag1(Msg::ExpectType, *id, "bool".to_owned())),
                    },
                    UnaryOp::Plus => eval_plus(v, *id),
                    UnaryOp::Minus => eval_minus(v, *id),
                }
            },
            Expr::Logical { lhs, op, rhs, id } => {
                let b = match self.typecheck_bool(&**lhs, *id, f) {
                    Ok(b) => b,
                    Err(d) => {
                        return Err(d);
                    },
                };
                match op {
                    LogicalOp::LogicalOr => {
                        if b {
                            Ok(WabbitType::Bool(true))
                        } else {
                            match self.typecheck_bool(&**rhs, *id, f) {
                                Ok(b2) => Ok(WabbitType::Bool(b2)),
                                Err(d) => Err(d),
                            }
                        }
                    },
                    LogicalOp::LogicalAnd => {
                        if !b {
                            Ok(WabbitType::Bool(false))
                        } else {
                            match self.typecheck_bool(&**rhs, *id, f) {
                                Ok(b2) => Ok(WabbitType::Bool(b2)),
                                Err(d) => Err(d),
                            }
                        }
                    },
                }
            },
            Expr::Binary { lhs, op, rhs, id } => {
                let l = match self.evaluate(&**lhs, f) {
                    Ok(v) => v,
                    Err(d) => {
                        return Err(d);
                    },
                };
                let r = match self.evaluate(&**rhs, f) {
                    Ok(v) => v,
                    Err(d) => {
                        return Err(d);
                    },
                };
                eval_binary(*op, l, r, *id)
            },
            Expr::Call { name, params, id } => {
                let func_lookup = self.func_get(name);
                match func_lookup {
                    Some(found) => match found {
                        Stmt::FuncDef { def_name, def_params, return_type, body, id: def_id } => {
                            if params.len() != def_params.len() {
                                return Err(
                                    diag3(
                                        Msg::FuncAirty,
                                        *def_id,
                                        name.clone(),
                                        usize_string(def_params.len()),
                                        usize_string(params.len()),
                                    ),
                                );
                            }
                            let ghost st_args = self.st();
                            let mut frame: Vec<(String, VarStore<WabbitType>)> = Vec::new();
                            let mut i: usize = 0;
                            proof {
                                assert(params@.skip(0) =~~= params@);
                                assert(def_params@.skip(0) =~~= def_params@);
                                assert(frame_view(frame@) =~~= Seq::<
                                    (Seq<char>, VarStore<WabbitType>),
                                >::empty());
                            }
                            while i < params.len()
                                invariant
                                    i <= params@.len(),
                                    params@.len() == def_params@.len(),
                                    self.wf(),
                                    ev_args(
                                        st_args,
                                        params@,
                                        def_params@,
                                        *def_id,
                                        f as nat,
                                        Seq::empty(),
                                    ) == ev_args(
                                        self.st(),
                                        params@.skip(i as int),
                                        def_params@.skip(i as int),
                                        *def_id,
                                        f as nat,
                                        frame_view(frame@),
                                    ),
                                decreases params@.len() - i,
                            {
                                proof {
                                    assert(params@.skip(i as int)[0] == params@[i as int]);
                                    assert(params@.skip(i as int).drop_first() =~~= params@.skip(
                                        i as int + 1,
                                    ));
                                    assert(def_params@.skip(i as int).drop_first()
                                        =~~= def_params@.skip(i as int + 1));
                                }
                                let v = match self.evaluate(&params[i], f) {
                                    Ok(v) => v,
                                    Err(d) => {
                                        return Err(d);
                                    },
                                };
                                if !(v.dtype() == def_params[i].1) {
                                    return Err(
                                        diag3(
                                            Msg::ParamType,
                                            *def_id,
                                            def_params[i].0.clone(),
                                            def_params[i].1.name(),
                                            v.dtype().name(),
                                        ),
                                    );
                                }
                                let ghost frame_pre = frame@;
                                frame.push((def_params[i].0.clone(), VarStore::Init(v)));
                                proof {
                                    assert(frame_view(frame@) =~~= frame_view(frame_pre).push((
                                        def_params@[i as int].0@,
                                        VarStore::Init(v),
                                    )));
                                }
                                i = i + 1;
                            }
                            proof {
                                assert(params@.skip(params@.len() as int) =~~= Seq::<
                                    Expr,
                                >::empty());
                            }
                            if params_have_dup(def_params) {
                                return Err(diag0(Msg::DupArgs, *def_id));
                            }
                            let ghost st_entry = self.st();
                            let saved_call = self.call_depth;
                            let caller_locals = self.env.detach_locals();
                            self.env.enter_child_fn(frame);
                            proof {
                                assert(self.env@ =~~= seq![
                                    st_entry.env[0],
                                    frame_view(frame@),
                                ]);
                            }
                            self.call_depth = inc64_exec(self.call_depth);
                            let sig = match self.run_stmt(&**body, f) {
                                Ok(s) => s,
                                Err(d) => {
                                    return Err(d);
                                },
                            };
                            self.exit_scope(*def_id)?;
                            self.call_depth = saved_call;
                            self.env.reattach_locals(caller_locals);
                            proof {
                                assert(st_entry.env.skip(1) =~~= st_entry.env.drop_first());
                            }
                            match sig {
                                Signal::Return(v) => {
                                    if !(v.dtype() == *return_type) {
                                        Err(
                                            diag3(
                                                Msg::ReturnType,
                                                *def_id,
                                                name.clone(),
                                                return_type.name(),
                                                v.dtype().name(),
                                            ),
                                        )
                                    } else {
                                        Ok(v)
                                    }
                                },
                                _ => Err(diag0(Msg::NoReturn, *def_id)),
                            }
                        },
                        _ => Err(diag0(Msg::FuncUndefined, *id)),
                    },
                    None => Err(diag0(Msg::FuncUndefined, *id)),
                }
            },
        }
    }

    /// Execute a single statement for effect, producing its control-flow
    /// signal.
    #[verifier::loop_isolation(false)]
    #[verifier::rlimit(100)]
    pub(crate) fn run_stmt(&mut self, stmt: &'a Stmt, fuel: u64) -> (r: Result<Signal, Diagnostic>)
        requires
            old(self).wf(),
        ensures
            final(self).wf(),
            ({
                let (st2, r2) = ev_stmt(old(self).st(), *stmt, fuel as nat);
                final(self).st() == st2 && sig_view(r) == r2
            }),
        decreases fuel, *stmt, 0int,
    {
        if fuel == 0 {
            return Err(diag0(Msg::StepLimit, stmt.node_id()));
        }
        let f = fuel - 1;
        match stmt {
            Stmt::FuncDef { def_name, def_params, return_type, body, id } => {
                if !self.env.in_global_scope() {
                    return Err(diag0(Msg::FuncDefScope, *id));
                }
                self.check_constant(def_name, *id)?;
                self.check_env(def_name, *id)?;
                self.check_function(def_name, *id)?;
                self.func_insert(def_name, stmt);
                Ok(Signal::Unit)
            },
            Stmt::Return { value, id } => {
                let v = match self.evaluate(value, f) {
                    Ok(v) => v,
                    Err(d) => {
                        return Err(d);
                    },
                };
                if self.call_depth > 0 {
                    Ok(Signal::Return(v))
                } else {
                    Err(diag0(Msg::ReturnScope, *id))
                }
            },
            Stmt::Expr(e) => {
                match self.evaluate(e, f) {
                    Ok(v) => Ok(Signal::Unit),
                    Err(d) => Err(d),
                }
            },
            Stmt::Assign { name, value, id } => {
                self.check_constant(name, *id)?;
                self.check_function(name, *id)?;
                let v = match self.evaluate(value, f) {
                    Ok(v) => v,
                    Err(d) => {
                        return Err(d);
                    },
                };
                match self.env.get(name) {
                    Some(slot) => {
                        let stored = slot.clone_store();
                        if stored.dtype() == v.dtype() {
                            self.env.assign(name, v);
                            Ok(Signal::Unit)
                        } else {
                            Err(
                                diag3(
                                    Msg::AssignRetype,
                                    *id,
                                    name.clone(),
                                    stored.dtype().name(),
                                    v.dtype().name(),
                                ),
                            )
                        }
                    },
                    None => Err(diag0(Msg::AssignUndefined, *id)),
                }
            },
            Stmt::While { condition, body, id } => {
                let b = match self.typecheck_bool(condition, *id, f) {
                    Ok(b) => b,
                    Err(d) => {
                        return Err(d);
                    },
                };
                if !b {
                    return Ok(Signal::Unit);
                }
                let saved_loop = self.loop_depth;
                self.loop_depth = inc64_exec(self.loop_depth);
                self.env.enter_child();
                let sig = match self.run_stmt(&**body, f) {
                    Ok(s) => s,
                    Err(d) => {
                        return Err(d);
                    },
                };
                match sig {
                    Signal::Unit | Signal::Continue => {
                        self.loop_depth = saved_loop;
                        self.exit_scope(*id)?;
                        self.run_stmt(stmt, f)
                    },
                    Signal::Return(v) => {
                        self.exit_scope(*id)?;
                        self.loop_depth = saved_loop;
                        Ok(Signal::Return(v))
                    },
                    Signal::Break => {
                        self.exit_scope(*id)?;
                        self.loop_depth = saved_loop;
                        Ok(Signal::Unit)
                    },
                }
            },
            Stmt::ConstDef { name, maybe_type, value, id } => {
                self.check_constant(name, *id)?;
                self.check_env(name, *id)?;
                self.check_function(name, *id)?;
                if !self.env.in_global_scope() {
                    return Err(diag0(Msg::ConstScope, *id));
                }
                let v = match self.evaluate(value, f) {
                    Ok(v) => v,
                    Err(d) => {
                        return Err(d);
                    },
                };
                let type_ok = match maybe_type {
                    None => true,
                    Some(t) => *t == v.dtype(),
                };
                if type_ok {
                    self.const_insert(name, v);
                    Ok(Signal::Unit)
                } else {
                    Err(diag0(Msg::InitType, *id))
                }
            },
            Stmt::VarDef { name, maybe_type, maybe_value, id } => {
                self.check_constant(name, *id)?;
                self.check_env(name, *id)?;
                self.check_function(name, *id)?;
                match (maybe_type, maybe_value) {
                    (Some(typename), Some(value)) => {
                        let v = match self.evaluate(value, f) {
                            Ok(v) => v,
                            Err(d) => {
                                return Err(d);
                            },
                        };
                        if *typename == v.dtype() {
                            self.env.define_init(name, v);
                            Ok(Signal::Unit)
                        } else {
                            Err(diag0(Msg::InitType, *id))
                        }
                    },
                    (None, Some(value)) => {
                        let v = match self.evaluate(value, f) {
                            Ok(v) => v,
                            Err(d) => {
                                return Err(d);
                            },
                        };
                        self.env.define_init(name, v);
                        Ok(Signal::Unit)
                    },
                    (Some(typename), None) => {
                        self.env.define_uninit(name, WabbitType::TypeHolder(*typename));
                        Ok(Signal::Unit)
                    },
                    (None, None) => Err(
                        diag1(
                            Msg::InternalErr,
                            *id,
                            "Parser allowed variable definition without type or initial value"
                                .to_owned(),
                        ),
                    ),
                }
            },
            Stmt::If { condition, then_block, maybe_else_block, id } => {
                let b = match self.typecheck_bool(condition, *id, f) {
                    Ok(b) => b,
                    Err(d) => {
                        return Err(d);
                    },
                };
                self.env.enter_child();
                let sig_res = if b {
                    self.run_stmt(&**then_block, f)
                } else {
                    match maybe_else_block {
                        Some(else_block) => self.run_stmt(&**else_block, f),
                        None => Ok(Signal::Unit),
                    }
                };
                let sig = match sig_res {
                    Ok(s) => s,
                    Err(d) => {
                        return Err(d);
                    },
                };
                self.exit_scope(*id)?;
                Ok(sig)
            },
            Stmt::Block { statements, id } => {
                let ghost st0 = self.st();
                let mut i: usize = 0;
                proof {
                    assert(statements@.skip(0) =~~= statements@);
                }
                while i < statements.len()
                    invariant
                        i <= statements@.len(),
                        self.wf(),
                        ev_block(st0, statements@, f as nat) == ev_block(
                            self.st(),
                            statements@.skip(i as int),
                            f as nat,
                        ),
                    decreases statements@.len() - i,
                {
                    proof {
                        assert(statements@.skip(i as int)[0] == statements@[i as int]);
                        assert(statements@.skip(i as int).drop_first() =~~= statements@.skip(
                            i as int + 1,
                        ));
                    }
                    let sig = match self.run_stmt(&statements[i], f) {
                        Ok(s) => s,
                        Err(d) => {
                            return Err(d);
                        },
                    };
                    match sig {
                        Signal::Unit => {},
                        _ => {
                            return Ok(sig);
                        },
                    }
                    i = i + 1;
                }
                proof {
                    assert(statements@.skip(statements@.len() as int) =~~= Seq::<Stmt>::empty());
                }
                Ok(Signal::Unit)
            },
            Stmt::LoopControl { control, id } => {
                if self.loop_depth > 0 {
                    match control {
                        LoopControl::Break => Ok(Signal::Break),
                        LoopControl::Continue => Ok(Signal::Continue),
                    }
                } else {
                    Err(diag0(Msg::LoopReq, *id))
                }
            },
            Stmt::Print { value, id } => {
                let v = match self.evaluate(value, f) {
                    Ok(v) => v,
                    Err(d) => {
                        return Err(d);
                    },
                };
                self.output.push(v);
                Ok(Signal::Unit)
            },
        }
    }

    /// Execute a whole program, stopping at the first diagnostic.  Each
    /// top-level statement receives the full fuel budget.
    #[verifier::loop_isolation(false)]
    pub fn interpret_stmts(&mut self, program: &'a Vec<Stmt>, fuel: u64) -> (r: Result<
        (),
        Diagnostic,
    >)
        requires
            old(self).wf(),
        ensures
            final(self).wf(),
            ({
                let (st2, r2) = ev_program(old(self).st(), program@, fuel as nat);
                final(self).st() == st2 && guard_view(r) == r2
            }),
    {
        let ghost st0 = self.st();
        let mut i: usize = 0;
        proof {
            assert(program@.skip(0) =~~= program@);
        }
        while i < program.len()
            invariant
                i <= program@.len(),
                self.wf(),
                ev_program(st0, program@, fuel as nat) == ev_program(
                    self.st(),
                    program@.skip(i as int),
                    fuel as nat,
                ),
            decreases program@.len() - i,
        {
            proof {
                assert(program@.skip(i as int)[0] == program@[i as int]);
                assert(program@.skip(i as int).drop_first() =~~= program@.skip(i as int + 1));
            }
            match self.run_stmt(&program[i], fuel) {
                Ok(sig) => {},
                Err(d) => {
                    return Err(d);
                },
            }
            i = i + 1;
        }
        proof {
            assert(program@.skip(program@.len() as int) =~~= Seq::<Stmt>::empty());
        }
        Ok(())
    }

    /// Execute a whole program and render the first diagnostic, if any,
    /// against the supplied range map.  The observable result of a run is
    /// the ordered trace of printed values in `output`.
    pub fn interpret(
        &mut self,
        program: &'a Vec<Stmt>,
        ranges: &HashMap<usize, (usize, usize)>,
        fuel: u64,
    ) -> (r: Result<(), WabbitError>)
        requires
            old(self).wf(),
        ensures
            final(self).wf(),
            ({
                let (st2, r2) = ev_program(old(self).st(), program@, fuel as nat);
                final(self).st() == st2 && (match r {
                    Ok(u) => r2 is Ok,
                    Err(e) => r2 is Err && e.label@ == spec_label_of(r2->Err_0) && e.spec_range()
                        == spec_range_of(ranges@, r2->Err_0.id),
                })
            }),
    {
        match self.interpret_stmts(program, fuel) {
            Ok(u) => Ok(()),
            Err(d) => Err(d.to_error(ranges)),
        }
    }
}

} // verus!
