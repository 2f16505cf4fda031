use crate::analyzer::{
    assoc_find, assoc_remove, diag0, diag1, diag3, guard_view, spec_check_constant, spec_check_env,
    spec_check_function, spec_diag0, spec_diag1, spec_diag3, spec_exit, Analyzer, SpecState,
};
use crate::ast::{Expr, Stmt};
use crate::environment::{env_assign, env_find, frame_view, SpecFrame, VarStore};
use crate::error::{
    decimal_of, spec_label_of, spec_range_of, usize_string, Diagnostic, Msg, SpecDiagnostic,
    WabbitError,
};
use std::collections::HashMap;
use crate::operators::{BinaryOp, UnaryOp};
use crate::types::Type;
use vstd::prelude::*;

verus! {

/// The typechecking pass: an analyzer whose semantic values are static
/// types.
pub type Typechecker<'a> = Analyzer<'a, Type>;

/// A nesting counter one deeper, saturating at the machine limit.
pub open spec fn inc64(d: nat) -> nat {
    if d < u64::MAX as nat {
        d + 1
    } else {
        d
    }
}

/// The parameter frame a function call or definition opens: every parameter
/// bound as assigned.
pub open spec fn params_frame(ps: Seq<(String, Type)>) -> SpecFrame<Type> {
    ps.map(|i: int, p: (String, Type)| (p.0@, VarStore::Init(p.1)))
}

/// Whether two parameters share a name.
pub open spec fn has_dup_params(ps: Seq<(String, Type)>) -> bool {
    exists|i: int, j: int| 0 <= i < j < ps.len() && #[trigger] ps[i].0@ == #[trigger] ps[j].0@
}

/// Whether every collected return type equals the first.
pub open spec fn seq_all_eq(ts: Seq<Type>) -> bool {
    forall|i: int| 0 <= i < ts.len() ==> #[trigger] ts[i] == ts[0]
}

/// The current frame replaced by itself with one more binding.
pub open spec fn env_define<T>(
    env: Seq<SpecFrame<T>>,
    n: Seq<char>,
    slot: VarStore<T>,
) -> Seq<SpecFrame<T>> {
    env.update(env.len() - 1, env.last().push((n, slot)))
}

/// The static type of a conversion, or the diagnostic refusing it.
pub open spec fn spec_convert_type(target: Type, src: Type, id: usize) -> Result<
    Type,
    SpecDiagnostic,
> {
    if target is Int && (src is Char || src is Bool || src is Float) {
        Ok(Type::Int)
    } else if target is Float && src is Int {
        Ok(Type::Float)
    } else if target is Char && src is Int {
        Ok(Type::Char)
    } else if target is Bool && src is Int {
        Ok(Type::Bool)
    } else if target == src {
        Ok(target)
    } else {
        Err(spec_diag0(Msg::TypeConvert, id))
    }
}

/// The static type of an expression under a given analysis state, or the
/// first diagnostic its analysis raises.  The state is read, never changed:
/// static analysis of an expression has no effects.
pub open spec fn tc_expr(st: SpecState<Type>, e: Expr) -> Result<Type, SpecDiagnostic>
    decreases e,
{
    match e {
        Expr::Call { name, params, id } => match assoc_find(st.functions, name@) {
            Some(f) => match f {
                Stmt::FuncDef { def_name, def_params, return_type, body, id: def_id } => {
                    if params@.len() != def_params@.len() {
                        Err(
                            spec_diag3(
                                Msg::FuncAirty,
                                def_id,
                                name@,
                                decimal_of(def_params@.len()),
                                decimal_of(params@.len()),
                            ),
                        )
                    } else {
                        match tc_args(st, params@, def_params@, def_id) {
                            Ok(u) => Ok(return_type),
                            Err(d) => Err(d),
                        }
                    }
                },
                _ => Err(spec_diag0(Msg::FuncUndefined, id)),
            },
            None => Err(spec_diag0(Msg::FuncUndefined, id)),
        },
        Expr::VarName { name, id } => match assoc_find(st.constants, name@) {
            Some(t) => Ok(t),
            None => match env_find(st.env, name@) {
                Some(VarStore::Init(t)) => Ok(t),
                Some(VarStore::UnInit(_)) => Err(spec_diag1(Msg::AccessUninit, id, name@)),
                None => Err(spec_diag0(Msg::VarUndefined, id)),
            },
        },
        Expr::TypeName { dtype, id } => Err(spec_diag0(Msg::TypeEval, id)),
        Expr::TypeConversion { dtype, params, id } => {
            if params@.len() != 1 {
                Err(spec_diag0(Msg::ConvertAirty, id))
            } else {
                match tc_expr(st, params@[0]) {
                    Ok(src) => spec_convert_type(dtype, src, id),
                    Err(d) => Err(d),
                }
            }
        },
        Expr::Binary { lhs, op, rhs, id } => match tc_expr(st, *lhs) {
            Err(d) => Err(d),
            Ok(lt) => match tc_expr(st, *rhs) {
                Err(d) => Err(d),
                Ok(rt) => {
                    if lt != rt {
                        Err(spec_diag0(Msg::TypeMatch, id))
                    } else {
                        match op {
                            BinaryOp::Plus | BinaryOp::Minus | BinaryOp::Times
                            | BinaryOp::Divide => {
                                if lt is Float || lt is Int {
                                    Ok(lt)
                                } else {
                                    Err(spec_diag1(Msg::ExpectType, id, "int, float"@))
                                }
                            },
                            BinaryOp::Less | BinaryOp::LessEqual | BinaryOp::Greater
                            | BinaryOp::GreaterEqual => {
                                if lt is Float || lt is Int || lt is Char {
                                    Ok(Type::Bool)
                                } else {
                                    Err(spec_diag1(Msg::ExpectType, id, "int, float, char"@))
                                }
                            },
                            BinaryOp::EqualEqual | BinaryOp::NotEqual => Ok(Type::Bool),
                        }
                    }
                },
            },
        },
        Expr::Grouping { e: inner, id } => tc_expr(st, *inner),
        Expr::Logical { lhs, op, rhs, id } => match tc_expr(st, *lhs) {
            Err(d) => Err(d),
            Ok(lt) => match tc_expr(st, *rhs) {
                Err(d) => Err(d),
                Ok(rt) => {
                    if lt != Type::Bool || rt != Type::Bool {
                        Err(spec_diag1(Msg::ExpectType, id, "bool"@))
                    } else {
                        Ok(Type::Bool)
                    }
                },
            },
        },
        Expr::Unary { op, operand, id } => match tc_expr(st, *operand) {
            Err(d) => Err(d),
            Ok(ot) => match op {
                UnaryOp::LogicalNot => {
                    if ot == Type::Bool {
                        Ok(Type::Bool)
                    } else {
                        Err(spec_diag1(Msg::ExpectType, id, "bool"@))
                    }
                },
                UnaryOp::Plus | UnaryOp::Minus => {
                    if ot is Float || ot is Int {
                        Ok(ot)
                    } else {
                        Err(spec_diag1(Msg::ExpectType, id, "int, float"@))
                    }
                },
            },
        },
        Expr::Literal { value, id } => Ok(value.spec_dtype()),
    }
}

/// Call arguments checked, left to right, against the declared parameter
/// types.
pub open spec fn tc_args(
    st: SpecState<Type>,
    args: Seq<Expr>,
    params: Seq<(String, Type)>,
    def_id: usize,
) -> Result<(), SpecDiagnostic>
    decreases args,
{
    if args.len() == 0 {
        Ok(())
    } else {
        match tc_expr(st, args[0]) {
            Err(d) => Err(d),
            Ok(t) => {
                if params.len() > 0 && t != params[0].1 {
                    Err(
                        spec_diag3(
                            Msg::ParamType,
                            def_id,
                            params[0].0@,
                            params[0].1.spec_name(),
                            t.spec_name(),
                        ),
                    )
                } else {
                    tc_args(st, args.drop_first(), params.drop_first(), def_id)
                }
            },
        }
    }
}

/// What typechecking one statement does to the analysis state, and what it
/// reports: the first diagnostic, or the return type the statement yields
/// together with whether that return is guaranteed on every path.
pub open spec fn tc_stmt(st: SpecState<Type>, s: Stmt) -> (SpecState<Type>, Result<
    Option<(Type, bool)>,
    SpecDiagnostic,
>)
    decreases s,
{
    match s {
        Stmt::Assign { name, value, id } => {
            if spec_check_constant(st, name@, id) is Err {
                (st, Err(spec_check_constant(st, name@, id)->Err_0))
            } else if spec_check_function(st, name@, id) is Err {
                (st, Err(spec_check_function(st, name@, id)->Err_0))
            } else {
                match tc_expr(st, value) {
                    Err(d) => (st, Err(d)),
                    Ok(new_type) => match env_find(st.env, name@) {
                        Some(slot) => {
                            if slot.stored() == new_type {
                                (
                                    SpecState { env: env_assign(st.env, name@, new_type), ..st },
                                    Ok(None),
                                )
                            } else {
                                (
                                    st,
                                    Err(
                                        spec_diag3(
                                            Msg::AssignRetype,
                                            id,
                                            name@,
                                            slot.stored().spec_name(),
                                            new_type.spec_name(),
                                        ),
                                    ),
                                )
                            }
                        },
                        None => (st, Err(spec_diag0(Msg::AssignUndefined, id))),
                    },
                }
            }
        },
        Stmt::Block { statements, id } => {
            let (st1, r) = tc_block(st, statements@, Seq::empty(), Seq::empty());
            match r {
                Err(d) => (st1, Err(d)),
                Ok((types, guars)) => {
                    if types.len() == 0 {
                        (st1, Ok(None))
                    } else if guars.len() == 0 && st1.loop_depth == 0 {
                        (st1, Err(spec_diag0(Msg::AltBranch, id)))
                    } else if seq_all_eq(types) {
                        (st1, Ok(Some((types[0], true))))
                    } else {
                        (st1, Err(spec_diag0(Msg::ReturnDiverge, id)))
                    }
                },
            }
        },
        Stmt::While { condition, body, id } => match tc_expr(st, condition) {
            Err(d) => (st, Err(d)),
            Ok(ct) => {
                if ct != Type::Bool {
                    (st, Err(spec_diag1(Msg::ExpectType, id, "bool"@)))
                } else {
                    let entered = SpecState {
                        env: st.env.push(Seq::empty()),
                        loop_depth: inc64(st.loop_depth),
                        ..st
                    };
                    let (st1, r) = tc_stmt(entered, *body);
                    match r {
                        Err(d) => (st1, Err(d)),
                        Ok(ret) => {
                            let restored = SpecState { loop_depth: st.loop_depth, ..st1 };
                            let (st2, ex) = spec_exit(restored, id);
                            match ex {
                                Err(d) => (st2, Err(d)),
                                Ok(u) => (
                                    st2,
                                    Ok(
                                        match ret {
                                            Some((t, g)) => Some((t, false)),
                                            None => None,
                                        },
                                    ),
                                ),
                            }
                        },
                    }
                }
            },
        },
        Stmt::Return { value, id } => match tc_expr(st, value) {
            Err(d) => (st, Err(d)),
            Ok(vt) => {
                if st.call_depth > 0 {
                    (st, Ok(Some((vt, true))))
                } else {
                    (st, Err(spec_diag0(Msg::ReturnScope, id)))
                }
            },
        },
        Stmt::If { condition, then_block, maybe_else_block, id } => match tc_expr(st, condition) {
            Err(d) => (st, Err(d)),
            Ok(ct) => {
                if ct != Type::Bool {
                    (st, Err(spec_diag1(Msg::ExpectType, id, "bool"@)))
                } else {
                    let entered = SpecState { env: st.env.push(Seq::empty()), ..st };
                    let (st1, r_then) = tc_stmt(entered, *then_block);
                    match r_then {
                        Err(d) => (st1, Err(d)),
                        Ok(then_ret) => {
                            let (st2, ex) = spec_exit(st1, id);
                            match ex {
                                Err(d) => (st2, Err(d)),
                                Ok(u) => match maybe_else_block {
                                    None => (
                                        st2,
                                        Ok(
                                            match then_ret {
                                                Some((t, g)) => Some((t, false)),
                                                None => None,
                                            },
                                        ),
                                    ),
                                    Some(else_block) => {
                                        let entered2 = SpecState {
                                            env: st2.env.push(Seq::empty()),
                                            ..st2
                                        };
                                        let (st3, r_else) = tc_stmt(entered2, *else_block);
                                        match r_else {
                                            Err(d) => (st3, Err(d)),
                                            Ok(else_ret) => {
                                                let (st4, ex2) = spec_exit(st3, id);
                                                match ex2 {
                                                    Err(d) => (st4, Err(d)),
                                                    Ok(u2) => match (then_ret, else_ret) {
                                                        (Some((t1, g1)), Some((t2, g2))) => {
                                                            if t1 != t2 {
                                                                (
                                                                    st4,
                                                                    Err(
                                                                        spec_diag0(
                                                                            Msg::ReturnDiverge,
                                                                            id,
                                                                        ),
                                                                    ),
                                                                )
                                                            } else {
                                                                (st4, Ok(Some((t1, true))))
                                                            }
                                                        },
                                                        (Some((t1, g1)), None) => (
                                                            st4,
                                                            Ok(Some((t1, false))),
                                                        ),
                                                        (None, _) => (st4, Ok(None)),
                                                    },
                                                }
                                            },
                                        }
                                    },
                                },
                            }
                        },
                    }
                }
            },
        },
        Stmt::LoopControl { control, id } => {
            if st.loop_depth > 0 {
                (st, Ok(None))
            } else {
                (st, Err(spec_diag0(Msg::LoopReq, id)))
            }
        },
        Stmt::Print { value, id } => match tc_expr(st, value) {
            Err(d) => (st, Err(d)),
            Ok(t) => (st, Ok(None)),
        },
        Stmt::ConstDef { name, maybe_type, value, id } => {
            if spec_check_constant(st, name@, id) is Err {
                (st, Err(spec_check_constant(st, name@, id)->Err_0))
            } else if spec_check_env(st, name@, id) is Err {
                (st, Err(spec_check_env(st, name@, id)->Err_0))
            } else if spec_check_function(st, name@, id) is Err {
                (st, Err(spec_check_function(st, name@, id)->Err_0))
            } else if st.env.len() != 1 {
                (st, Err(spec_diag0(Msg::ConstScope, id)))
            } else {
                match tc_expr(st, value) {
                    Err(d) => (st, Err(d)),
                    Ok(vt) => {
                        if maybe_type is None || maybe_type == Some(vt) {
                            (
                                SpecState { constants: st.constants.push((name@, vt)), ..st },
                                Ok(None),
                            )
                        } else {
                            (st, Err(spec_diag0(Msg::InitType, id)))
                        }
                    },
                }
            }
        },
        Stmt::FuncDef { def_name, def_params, return_type, body, id } => {
            if st.env.len() != 1 {
                (st, Err(spec_diag0(Msg::FuncDefScope, id)))
            } else if spec_check_constant(st, def_name@, id) is Err {
                (st, Err(spec_check_constant(st, def_name@, id)->Err_0))
            } else if spec_check_env(st, def_name@, id) is Err {
                (st, Err(spec_check_env(st, def_name@, id)->Err_0))
            } else if spec_check_function(st, def_name@, id) is Err {
                (st, Err(spec_check_function(st, def_name@, id)->Err_0))
            } else if has_dup_params(def_params@) {
                (st, Err(spec_diag0(Msg::DupArgs, id)))
            } else {
                let defined = SpecState { functions: st.functions.push((def_name@, s)), ..st };
                let entered = SpecState {
                    env: defined.env.push(params_frame(def_params@)),
                    call_depth: inc64(defined.call_depth),
                    ..defined
                };
                let (st1, r) = tc_stmt(entered, *body);
                match r {
                    Err(d) => (st1, Err(d)),
                    Ok(body_ret) => {
                        let (st2, ex) = spec_exit(st1, id);
                        match ex {
                            Err(d) => (st2, Err(d)),
                            Ok(u) => {
                                let restored = SpecState { call_depth: st.call_depth, ..st2 };
                                match body_ret {
                                    Some((rt, g)) => {
                                        if rt != return_type {
                                            (
                                                SpecState {
                                                    functions: assoc_remove(
                                                        restored.functions,
                                                        def_name@,
                                                    ),
                                                    ..restored
                                                },
                                                Err(
                                                    spec_diag3(
                                                        Msg::ReturnType,
                                                        id,
                                                        def_name@,
                                                        return_type.spec_name(),
                                                        rt.spec_name(),
                                                    ),
                                                ),
                                            )
                                        } else {
                                            (restored, Ok(None))
                                        }
                                    },
                                    None => (
                                        SpecState {
                                            functions: assoc_remove(restored.functions, def_name@),
                                            ..restored
                                        },
                                        Err(spec_diag0(Msg::NoReturn, id)),
                                    ),
                                }
                            },
                        }
                    },
                }
            }
        },
        Stmt::VarDef { name, maybe_type, maybe_value, id } => {
            if spec_check_constant(st, name@, id) is Err {
                (st, Err(spec_check_constant(st, name@, id)->Err_0))
            } else if spec_check_env(st, name@, id) is Err {
                (st, Err(spec_check_env(st, name@, id)->Err_0))
            } else if spec_check_function(st, name@, id) is Err {
                (st, Err(spec_check_function(st, name@, id)->Err_0))
            } else {
                match (maybe_type, maybe_value) {
                    (Some(typename), Some(value)) => match tc_expr(st, value) {
                        Err(d) => (st, Err(d)),
                        Ok(vt) => {
                            if typename == vt {
                                (
                                    SpecState {
                                        env: env_define(
                                            st.env,
                                            name@,
                                            VarStore::Init(typename),
                                        ),
                                        ..st
                                    },
                                    Ok(None),
                                )
                            } else {
                                (st, Err(spec_diag0(Msg::InitType, id)))
                            }
                        },
                    },
                    (None, Some(value)) => match tc_expr(st, value) {
                        Err(d) => (st, Err(d)),
                        Ok(vt) => (
                            SpecState { env: env_define(st.env, name@, VarStore::Init(vt)), ..st },
                            Ok(None),
                        ),
                    },
                    (Some(typename), None) => (
                        SpecState {
                            env: env_define(st.env, name@, VarStore::UnInit(typename)),
                            ..st
                        },
                        Ok(None),
                    ),
                    (None, None) => (
                        st,
                        Err(
                            spec_diag1(
                                Msg::InternalErr,
                                id,
                                "Parser allowed variable definition without type or initial value"@,
                            ),
                        ),
                    ),
                }
            }
        },
        Stmt::Expr(e) => match tc_expr(st, e) {
            Err(d) => (st, Err(d)),
            Ok(t) => (st, Ok(None)),
        },
    }
}

/// A block's statements typechecked in order, collecting every return type
/// yielded and, separately, those that are guaranteed.
pub open spec fn tc_block(
    st: SpecState<Type>,
    stmts: Seq<Stmt>,
    types: Seq<Type>,
    guars: Seq<Type>,
) -> (SpecState<Type>, Result<(Seq<Type>, Seq<Type>), SpecDiagnostic>)
    decreases stmts,
{
    if stmts.len() == 0 {
        (st, Ok((types, guars)))
    } else {
        let (st1, r) = tc_stmt(st, stmts[0]);
        match r {
            Err(d) => (st1, Err(d)),
            Ok(None) => tc_block(st1, stmts.drop_first(), types, guars),
            Ok(Some((t, g))) => tc_block(
                st1,
                stmts.drop_first(),
                types.push(t),
                if g {
                    guars.push(t)
                } else {
                    guars
                },
            ),
        }
    }
}

/// A whole program typechecked statement by statement, stopping at the
/// first diagnostic.
pub open spec fn tc_program(st: SpecState<Type>, stmts: Seq<Stmt>) -> (SpecState<Type>, Result<
    (),
    SpecDiagnostic,
>)
    decreases stmts,
{
    if stmts.len() == 0 {
        (st, Ok(()))
    } else {
        let (st1, r) = tc_stmt(st, stmts[0]);
        match r {
            Err(d) => (st1, Err(d)),
            Ok(ret) => tc_program(st1, stmts.drop_first()),
        }
    }
}


/// The specification-level form of an expression-typing result.
pub open spec fn ty_view(r: Result<Type, Diagnostic>) -> Result<Type, SpecDiagnostic> {
    match r {
        Ok(t) => Ok(t),
        Err(d) => Err(d@),
    }
}

/// The specification-level form of a statement-typing result.
pub open spec fn ret_view(r: Result<Option<(Type, bool)>, Diagnostic>) -> Result<
    Option<(Type, bool)>,
    SpecDiagnostic,
> {
    match r {
        Ok(t) => Ok(t),
        Err(d) => Err(d@),
    }
}

/// One nesting level deeper, saturating at the machine limit.
pub(crate) fn inc64_exec(d: u64) -> (r: u64)
    ensures
        r as nat == inc64(d as nat),
{
    if d < u64::MAX {
        d + 1
    } else {
        d
    }
}

/// The static type of a conversion, or the diagnostic refusing it.
pub(crate) fn convert_type(target: Type, src: Type, id: usize) -> (r: Result<Type, Diagnostic>)
    ensures
        ty_view(r) == spec_convert_type(target, src, id),
{
    match (target, src) {
        (Type::Int, Type::Char) | (Type::Int, Type::Bool) | (Type::Int, Type::Float) => Ok(
            Type::Int,
        ),
        (Type::Float, Type::Int) => Ok(Type::Float),
        (Type::Char, Type::Int) => Ok(Type::Char),
        (Type::Bool, Type::Int) => Ok(Type::Bool),
        (a, b) => {
            if a == b {
                Ok(a)
            } else {
                Err(diag0(Msg::TypeConvert, id))
            }
        },
    }
}

/// Whether two declared parameters share a name.
pub(crate) fn params_have_dup(ps: &Vec<(String, Type)>) -> (r: bool)
    ensures
        r == has_dup_params(ps@),
{
    let mut i: usize = 0;
    while i < ps.len()
        invariant
            i <= ps@.len(),
            forall|x: int, y: int|
                0 <= x < y < i ==> !(#[trigger] ps@[x].0@ == #[trigger] ps@[y].0@),
        decreases ps@.len() - i,
    {
        let mut j: usize = 0;
        while j < i
            invariant
                j <= i < ps@.len(),
                forall|x: int, y: int|
                    0 <= x < y < i ==> !(#[trigger] ps@[x].0@ == #[trigger] ps@[y].0@),
                forall|x: int| 0 <= x < j ==> !(#[trigger] ps@[x].0@ == ps@[i as int].0@),
            decreases i - j,
        {
            if ps[j].0 == ps[i].0 {
                proof {
                    assert(ps@[j as int].0@ == ps@[i as int].0@);
                    assert(has_dup_params(ps@));
                }
                return true;
            }
            j = j + 1;
        }
        i = i + 1;
    }
    proof {
        assert(!has_dup_params(ps@));
    }
    false
}

/// The parameter frame for a function definition: each parameter bound, as
/// assigned, to its declared type.
pub(crate) fn build_param_frame(ps: &Vec<(String, Type)>) -> (r: Vec<(String, VarStore<Type>)>)
    ensures
        frame_view(r@) == params_frame(ps@),
{
    let mut out: Vec<(String, VarStore<Type>)> = Vec::new();
    let mut i: usize = 0;
    proof {
        assert(frame_view(out@) =~~= params_frame(ps@.take(0)));
    }
    while i < ps.len()
        invariant
            i <= ps@.len(),
            frame_view(out@) == params_frame(ps@.take(i as int)),
        decreases ps@.len() - i,
    {
        let ghost pre = out@;
        out.push((ps[i].0.clone(), VarStore::Init(ps[i].1)));
        proof {
            assert(frame_view(out@) =~~= frame_view(pre).push((ps@[i as int].0@, VarStore::Init(
                ps@[i as int].1,
            ))));
            assert(params_frame(ps@.take(i + 1)) =~~= params_frame(ps@.take(i as int)).push((
                ps@[i as int].0@,
                VarStore::Init(ps@[i as int].1),
            )));
        }
        i = i + 1;
    }
    proof {
        assert(ps@.take(ps@.len() as int) =~~= ps@);
    }
    out
}

/// Whether every collected return type equals the first.
pub(crate) fn types_all_eq(ts: &Vec<Type>) -> (r: bool)
    requires
        ts@.len() > 0,
    ensures
        r == seq_all_eq(ts@),
{
    let first = ts[0];
    let mut i: usize = 0;
    while i < ts.len()
        invariant
            i <= ts@.len(),
            ts@.len() > 0,
            first == ts@[0],
            forall|k: int| 0 <= k < i ==> #[trigger] ts@[k] == ts@[0],
        decreases ts@.len() - i,
    {
        if !(ts[i] == first) {
            proof {
                assert(!seq_all_eq(ts@));
            }
            return false;
        }
        i = i + 1;
    }
    true
}

impl<'a> Analyzer<'a, Type> {
    /// The static type of an expression under the current state, or the
    /// first diagnostic of its analysis.
    #[verifier::loop_isolation(false)]
    #[verifier::rlimit(60)]
    pub(crate) fn expr_type(&self, e: &Expr) -> (r: Result<Type, Diagnostic>)
        ensures
            ty_view(r) == tc_expr(self.st(), *e),
        decreases *e,
    {
        match e {
            Expr::Call { name, params, id } => {
                let func_lookup = self.func_get(name);
                match func_lookup {
                    Some(f) => match f {
                        Stmt::FuncDef { def_name, def_params, return_type, body, id: def_id } => {
                            if params.len() != def_params.len() {
                                Err(
                                    diag3(
                                        Msg::FuncAirty,
                                        *def_id,
                                        name.clone(),
                                        usize_string(def_params.len()),
                                        usize_string(params.len()),
                                    ),
                                )
                            } else {
                                let mut i: usize = 0;
                                proof {
                                    assert(params@.skip(0) =~~= params@);
                                    assert(def_params@.skip(0) =~~= def_params@);
                                }
                                while i < params.len()
                                    invariant
                                        i <= params@.len(),
                                        params@.len() == def_params@.len(),
                                        tc_args(self.st(), params@, def_params@, *def_id)
                                            == tc_args(
                                            self.st(),
                                            params@.skip(i as int),
                                            def_params@.skip(i as int),
                                            *def_id,
                                        ),
                                    decreases params@.len() - i,
                                {
                                    proof {
                                        assert(params@.skip(i as int)[0] == params@[i as int]);
                                        assert(params@.skip(i as int).drop_first() =~~= params@.skip(
                                            i as int + 1,
                                        ));
                                        assert(def_params@.skip(i as int).drop_first()
                                            =~~= def_params@.skip(i as int + 1));
                                    }
                                    let t = match self.expr_type(&params[i]) {
                                        Ok(t) => t,
                                        Err(d) => {
                                            return Err(d);
                                        },
                                    };
                                    if !(t == def_params[i].1) {
                                        return Err(
                                            diag3(
                                                Msg::ParamType,
                                                *def_id,
                                                def_params[i].0.clone(),
                                                def_params[i].1.name(),
                                                t.name(),
                                            ),
                                        );
                                    }
                                    i = i + 1;
                                }
                                proof {
                                    assert(params@.skip(params@.len() as int) =~~= Seq::<
                                        Expr,
                                    >::empty());
                                }
                                Ok(*return_type)
                            }
                        },
                        _ => Err(diag0(Msg::FuncUndefined, *id)),
                    },
                    None => Err(diag0(Msg::FuncUndefined, *id)),
                }
            },
            Expr::VarName { name, id } => match self.const_get(name) {
                Some(t) => Ok(t),
                None => match self.env.get(name) {
                    Some(VarStore::Init(t)) => Ok(t),
                    Some(VarStore::UnInit(t)) => Err(
                        diag1(Msg::AccessUninit, *id, name.clone()),
                    ),
                    None => Err(diag0(Msg::VarUndefined, *id)),
                },
            },
            Expr::TypeName { dtype, id } => Err(diag0(Msg::TypeEval, *id)),
            Expr::TypeConversion { dtype, params, id } => {
                if params.len() != 1 {
                    Err(diag0(Msg::ConvertAirty, *id))
                } else {
                    match self.expr_type(&params[0]) {
                        Err(d) => Err(d),
                        Ok(src) => convert_type(*dtype, src, *id),
                    }
                }
            },
            Expr::Binary { lhs, op, rhs, id } => {
                let lt = match self.expr_type(&**lhs) {
                    Ok(t) => t,
                    Err(d) => {
                        return Err(d);
                    },
                };
                let rt = match self.expr_type(&**rhs) {
                    Ok(t) => t,
                    Err(d) => {
                        return Err(d);
                    },
                };
                if !(lt == rt) {
                    Err(diag0(Msg::TypeMatch, *id))
                } else {
                    match op {
                        BinaryOp::Plus | BinaryOp::Minus | BinaryOp::Times | BinaryOp::Divide => {
                            if lt == Type::Float || lt == Type::Int {
                                Ok(lt)
                            } else {
                                Err(diag1(Msg::ExpectType, *id, "int, float".to_owned()))
                            }
                        },
                        BinaryOp::Less | BinaryOp::LessEqual | BinaryOp::Greater
                        | BinaryOp::GreaterEqual => {
                            if lt == Type::Float || lt == Type::Int || lt == Type::Char {
                                Ok(Type::Bool)
                            } else {
                                Err(diag1(Msg::ExpectType, *id, "int, float, char".to_owned()))
                            }
                        },
                        BinaryOp::EqualEqual | BinaryOp::NotEqual => Ok(Type::Bool),
                    }
                }
            },
            Expr::Grouping { e: inner, id } => self.expr_type(&**inner),
            Expr::Logical { lhs, op, rhs, id } => {
                let lt = match self.expr_type(&**lhs) {
                    Ok(t) => t,
                    Err(d) => {
                        return Err(d);
                    },
                };
                let rt = match self.expr_type(&**rhs) {
                    Ok(t) => t,
                    Err(d) => {
                        return Err(d);
                    },
                };
                if !(lt == Type::Bool) || !(rt == Type::Bool) {
                    Err(diag1(Msg::ExpectType, *id, "bool".to_owned()))
                } else {
                    Ok(Type::Bool)
                }
            },
            Expr::Unary { op, operand, id } => {
                let ot = match self.expr_type(&**operand) {
                    Ok(t) => t,
                    Err(d) => {
                        return Err(d);
                    },
                };
                match op {
                    UnaryOp::LogicalNot => {
                        if ot == Type::Bool {
                            Ok(Type::Bool)
                        } else {
                            Err(diag1(Msg::ExpectType, *id, "bool".to_owned()))
                        }
                    },
                    UnaryOp::Plus | UnaryOp::Minus => {
                        if ot == Type::Float || ot == Type::Int {
                            Ok(ot)
                        } else {
                            Err(diag1(Msg::ExpectType, *id, "int, float".to_owned()))
                        }
                    },
                }
            },
            Expr::Literal { value, id } => Ok(value.dtype()),
        }
    }

    /// Typecheck a single statement: prove its scoping and typing rules,
    /// and report the return type it yields, if any, together with whether
    /// that return is guaranteed.
    #[verifier::loop_isolation(false)]
    #[verifier::rlimit(100)]
    pub(crate) fn typecheck_stmt(&mut self, stmt: &'a Stmt) -> (r: Result<
        Option<(Type, bool)>,
        Diagnostic,
    >)
        requires
            old(self).wf(),
        ensures
            final(self).wf(),
            ({
                let (st2, r2) = tc_stmt(old(self).st(), *stmt);
                final(self).st() == st2 && ret_view(r) == r2
            }),
        decreases *stmt,
    {
        match stmt {
            Stmt::Assign { name, value, id } => {
                self.check_constant(name, *id)?;
                self.check_function(name, *id)?;
                let new_type = match self.expr_type(value) {
                    Ok(t) => t,
                    Err(d) => {
                        return Err(d);
                    },
                };
                match self.env.get(name) {
                    Some(slot) => {
                        let old_type = slot.clone_store();
                        if old_type == new_type {
                            self.env.assign(name, new_type);
                            Ok(None)
                        } else {
                            Err(
                                diag3(
                                    Msg::AssignRetype,
                                    *id,
                                    name.clone(),
                                    old_type.name(),
                                    new_type.name(),
                                ),
                            )
                        }
                    },
                    None => Err(diag0(Msg::AssignUndefined, *id)),
                }
            },
            Stmt::Block { statements, id } => {
                let ghost st0 = self.st();
                let mut types: Vec<Type> = Vec::new();
                let mut guars: Vec<Type> = Vec::new();
                let mut i: usize = 0;
                proof {
                    assert(statements@.skip(0) =~~= statements@);
                    assert(types@ =~~= Seq::<Type>::empty());
                    assert(guars@ =~~= Seq::<Type>::empty());
                }
                while i < statements.len()
                    invariant
                        i <= statements@.len(),
                        self.wf(),
                        tc_block(st0, statements@, Seq::empty(), Seq::empty()) == tc_block(
                            self.st(),
                            statements@.skip(i as int),
                            types@,
                            guars@,
                        ),
                    decreases statements@.len() - i,
                {
                    proof {
                        assert(statements@.skip(i as int)[0] == statements@[i as int]);
                        assert(statements@.skip(i as int).drop_first() =~~= statements@.skip(
                            i as int + 1,
                        ));
                    }
                    let r = self.typecheck_stmt(&statements[i]);
                    match r {
                        Err(d) => {
                            return Err(d);
                        },
                        Ok(Some((t, g))) => {
                            types.push(t);
                            if g {
                                guars.push(t);
                            }
                        },
                        Ok(None) => {},
                    }
                    i = i + 1;
                }
                proof {
                    assert(statements@.skip(statements@.len() as int) =~~= Seq::<Stmt>::empty());
                }
                if types.len() == 0 {
                    Ok(None)
                } else if guars.len() == 0 && self.loop_depth == 0 {
                    Err(diag0(Msg::AltBranch, *id))
                } else if types_all_eq(&types) {
                    Ok(Some((types[0], true)))
                } else {
                    Err(diag0(Msg::ReturnDiverge, *id))
                }
            },
            Stmt::While { condition, body, id } => {
                let ct = match self.expr_type(condition) {
                    Ok(t) => t,
                    Err(d) => {
                        return Err(d);
                    },
                };
                if !(ct == Type::Bool) {
                    return Err(diag1(Msg::ExpectType, *id, "bool".to_owned()));
                }
                let saved_loop = self.loop_depth;
                self.loop_depth = inc64_exec(self.loop_depth);
                self.env.enter_child();
                let ret = match self.typecheck_stmt(&**body) {
                    Ok(r) => r,
                    Err(d) => {
                        return Err(d);
                    },
                };
                self.loop_depth = saved_loop;
                self.exit_scope(*id)?;
                Ok(
                    match ret {
                        Some((t, g)) => Some((t, false)),
                        None => None,
                    },
                )
            },
            Stmt::Return { value, id } => {
                let vt = match self.expr_type(value) {
                    Ok(t) => t,
                    Err(d) => {
                        return Err(d);
                    },
                };
                if self.call_depth > 0 {
                    Ok(Some((vt, true)))
                } else {
                    Err(diag0(Msg::ReturnScope, *id))
                }
            },
            Stmt::If { condition, then_block, maybe_else_block, id } => {
                let ct = match self.expr_type(condition) {
                    Ok(t) => t,
                    Err(d) => {
                        return Err(d);
                    },
                };
                if !(ct == Type::Bool) {
                    return Err(diag1(Msg::ExpectType, *id, "bool".to_owned()));
                }
                self.env.enter_child();
                let then_ret = match self.typecheck_stmt(&**then_block) {
                    Ok(r) => r,
                    Err(d) => {
                        return Err(d);
                    },
                };
                self.exit_scope(*id)?;
                match maybe_else_block {
                    None => Ok(
                        match then_ret {
                            Some((t, g)) => Some((t, false)),
                            None => None,
                        },
                    ),
                    Some(else_block) => {
                        self.env.enter_child();
                        let else_ret = match self.typecheck_stmt(&**else_block) {
                            Ok(r) => r,
                            Err(d) => {
                                return Err(d);
                            },
                        };
                        self.exit_scope(*id)?;
                        match (then_ret, else_ret) {
                            (Some((t1, g1)), Some((t2, g2))) => {
                                if !(t1 == t2) {
                                    Err(diag0(Msg::ReturnDiverge, *id))
                                } else {
                                    Ok(Some((t1, true)))
                                }
                            },
                            (Some((t1, g1)), None) => Ok(Some((t1, false))),
                            (None, _) => Ok(None),
                        }
                    },
                }
            },
            Stmt::LoopControl { control, id } => {
                if self.loop_depth > 0 {
                    Ok(None)
                } else {
                    Err(diag0(Msg::LoopReq, *id))
                }
            },
            Stmt::Print { value, id } => {
                match self.expr_type(value) {
                    Ok(t) => Ok(None),
                    Err(d) => Err(d),
                }
            },
            Stmt::ConstDef { name, maybe_type, value, id } => {
                self.check_constant(name, *id)?;
                self.check_env(name, *id)?;
                self.check_function(name, *id)?;
                if !self.env.in_global_scope() {
                    return Err(diag0(Msg::ConstScope, *id));
                }
                let vt = match self.expr_type(value) {
                    Ok(t) => t,
                    Err(d) => {
                        return Err(d);
                    },
                };
                let type_ok = match maybe_type {
                    None => true,
                    Some(t) => *t == vt,
                };
                if type_ok {
                    self.const_insert(name, vt);
                    Ok(None)
                } else {
                    Err(diag0(Msg::InitType, *id))
                }
            },
            Stmt::FuncDef { def_name, def_params, return_type, body, id } => {
                if !self.env.in_global_scope() {
                    return Err(diag0(Msg::FuncDefScope, *id));
                }
                self.check_constant(def_name, *id)?;
                self.check_env(def_name, *id)?;
                self.check_function(def_name, *id)?;
                if params_have_dup(def_params) {
                    return Err(diag0(Msg::DupArgs, *id));
                }
                self.func_insert(def_name, stmt);
                let params = build_param_frame(def_params);
                self.env.enter_child_fn(params);
                let saved_call = self.call_depth;
                self.call_depth = inc64_exec(self.call_depth);
                let body_ret = match self.typecheck_stmt(&**body) {
                    Ok(r) => r,
                    Err(d) => {
                        return Err(d);
                    },
                };
                self.exit_scope(*id)?;
                self.call_depth = saved_call;
                match body_ret {
                    Some((rt, g)) => {
                        if !(rt == *return_type) {
                            self.func_remove(def_name);
                            Err(
                                diag3(
                                    Msg::ReturnType,
                                    *id,
                                    def_name.clone(),
                                    return_type.name(),
                                    rt.name(),
                                ),
                            )
                        } else {
                            Ok(None)
                        }
                    },
                    None => {
                        self.func_remove(def_name);
                        Err(diag0(Msg::NoReturn, *id))
                    },
                }
            },
            Stmt::VarDef { name, maybe_type, maybe_value, id } => {
                self.check_constant(name, *id)?;
                self.check_env(name, *id)?;
                self.check_function(name, *id)?;
                match (maybe_type, maybe_value) {
                    (Some(typename), Some(value)) => {
                        let vt = match self.expr_type(value) {
                            Ok(t) => t,
                            Err(d) => {
                                return Err(d);
                            },
                        };
                        if *typename == vt {
                            self.env.define_init(name, *typename);
                            Ok(None)
                        } else {
                            Err(diag0(Msg::InitType, *id))
                        }
                    },
                    (None, Some(value)) => {
                        let vt = match self.expr_type(value) {
                            Ok(t) => t,
                            Err(d) => {
                                return Err(d);
                            },
                        };
                        self.env.define_init(name, vt);
                        Ok(None)
                    },
                    (Some(typename), None) => {
                        self.env.define_uninit(name, *typename);
                        Ok(None)
                    },
                    (None, None) => Err(
                        diag1(
                            Msg::InternalErr,
                            *id,
                            "Parser allowed variable definition without type or initial value"
                                .to_owned(),
                        ),
                    ),
                }
            },
            Stmt::Expr(e) => {
                match self.expr_type(e) {
                    Ok(t) => Ok(None),
                    Err(d) => Err(d),
                }
            },
        }
    }

    /// Typecheck a whole program, stopping at the first diagnostic.
    #[verifier::loop_isolation(false)]
    #[verifier::rlimit(60)]
    pub fn typecheck_stmts(&mut self, program: &'a Vec<Stmt>) -> (r: Result<(), Diagnostic>)
        requires
            old(self).wf(),
        ensures
            final(self).wf(),
            ({
                let (st2, r2) = tc_program(old(self).st(), program@);
                final(self).st() == st2 && guard_view(r) == r2
            }),
    {
        let ghost st0 = self.st();
        let mut i: usize = 0;
        proof {
            assert(program@.skip(0) =~~= program@);
        }
        while i < program.len()
            invariant
                i <= program@.len(),
                self.wf(),
                tc_program(st0, program@) == tc_program(self.st(), program@.skip(i as int)),
            decreases program@.len() - i,
        {
            proof {
                assert(program@.skip(i as int)[0] == program@[i as int]);
                assert(program@.skip(i as int).drop_first() =~~= program@.skip(i as int + 1));
            }
            match self.typecheck_stmt(&program[i]) {
                Ok(ret) => {},
                Err(d) => {
                    return Err(d);
                },
            }
            i = i + 1;
        }
        proof {
            assert(program@.skip(program@.len() as int) =~~= Seq::<Stmt>::empty());
        }
        Ok(())
    }

    /// Typecheck a whole program and render the first diagnostic, if any,
    /// against the supplied range map.
    pub fn typecheck(
        &mut self,
        program: &'a Vec<Stmt>,
        ranges: &HashMap<usize, (usize, usize)>,
    ) -> (r: Result<(), WabbitError>)
        requires
            old(self).wf(),
        ensures
            final(self).wf(),
            ({
                let (st2, r2) = tc_program(old(self).st(), program@);
                final(self).st() == st2 && (match r {
                    Ok(u) => r2 is Ok,
                    Err(e) => r2 is Err && e.label@ == spec_label_of(r2->Err_0) && e.spec_range()
                        == spec_range_of(ranges@, r2->Err_0.id),
                })
            }),
    {
        match self.typecheck_stmts(program) {
            Ok(u) => Ok(()),
            Err(d) => Err(d.to_error(ranges)),
        }
    }
}

} // verus!
