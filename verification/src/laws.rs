use crate::analyzer::{
    assoc_find, spec_check_constant, spec_check_env, spec_check_function, spec_diag1, spec_exit,
    SpecState,
};
use crate::ast::{Expr, Stmt};
use crate::environment::{env_assign, env_find, frame_find, SpecFrame, VarStore};
use crate::error::{Msg, SpecDiagnostic};
use crate::interpreter::{
    ev_args, ev_binary, ev_block, ev_bool, ev_convert, ev_expr, ev_minus, ev_plus, ev_stmt,
    Signal,
};
use crate::operators::{BinaryOp, LogicalOp, UnaryOp};
use crate::typechecker::{
    has_dup_params, inc64, params_frame, seq_all_eq, spec_convert_type, tc_block, tc_expr,
    tc_stmt,
};
use crate::types::{Type, WabbitType};
use vstd::prelude::*;

verus! {

/// The name that a declaring statement introduces, if it is one.
pub open spec fn decl_name(s: Stmt) -> Option<Seq<char>> {
    match s {
        Stmt::VarDef { name, .. } => Some(name@),
        Stmt::ConstDef { name, .. } => Some(name@),
        Stmt::FuncDef { def_name, .. } => Some(def_name@),
        _ => None,
    }
}

/// Law: assigning to a name bound anywhere in the chain leaves that name
/// bound, as assigned, to the new value.
pub proof fn lemma_env_assign_updates<T>(env: Seq<SpecFrame<T>>, n: Seq<char>, v: T)
    requires
        env_find(env, n) is Some,
    ensures
        env_find(env_assign(env, n, v), n) == Some(VarStore::Init(v)),
    decreases env.len(),
{
    if env.len() == 0 {
    } else if frame_find(env.last(), n) is Some {
        let updated = env_assign(env, n, v);
        assert(updated.last() == env.last().push((n, VarStore::Init(v))));
        assert(updated.last().last() == (n, VarStore::Init(v)));
        assert(frame_find(updated.last(), n) == Some(VarStore::Init(v)));
    } else {
        let updated = env_assign(env, n, v);
        assert(updated == env_assign(env.drop_last(), n, v).push(env.last()));
        assert(updated.last() == env.last());
        assert(updated.drop_last() =~~= env_assign(env.drop_last(), n, v));
        lemma_env_assign_updates(env.drop_last(), n, v);
    }
}

/// Law: assigning to one name leaves the binding of every other name as it
/// was.
pub proof fn lemma_env_assign_preserves_other<T>(
    env: Seq<SpecFrame<T>>,
    n: Seq<char>,
    m: Seq<char>,
    v: T,
)
    requires
        n != m,
    ensures
        env_find(env_assign(env, n, v), m) == env_find(env, m),
    decreases env.len(),
{
    if env.len() == 0 {
    } else if frame_find(env.last(), n) is Some {
        let updated = env_assign(env, n, v);
        assert(updated.last() == env.last().push((n, VarStore::Init(v))));
        assert(frame_find(updated.last(), m) == frame_find(env.last(), m)) by {
            assert(updated.last().drop_last() =~~= env.last());
        }
        assert(updated.drop_last() =~~= env.drop_last());
    } else {
        let updated = env_assign(env, n, v);
        assert(updated.last() == env.last());
        assert(updated.drop_last() =~~= env_assign(env.drop_last(), n, v));
        lemma_env_assign_preserves_other(env.drop_last(), n, m, v);
    }
}

/// Law: declaring a name that is already bound — as a constant, as a
/// variable of the current scope, or as a function — is refused by the
/// typechecking pass with the corresponding redeclaration diagnostic and
/// leaves the state unchanged, whichever of the three kinds of declaration
/// is attempted second.  The guards are consulted in a fixed order:
/// constants first, then the current frame, then functions.  A function
/// definition is checked for global scope before any guard.
pub proof fn lemma_redeclare_typecheck(st: SpecState<Type>, s: Stmt)
    requires
        st.env.len() >= 1,
        decl_name(s) is Some,
        s is FuncDef ==> st.env.len() == 1,
    ensures
        ({
            let n = decl_name(s)->Some_0;
            let (st2, r) = tc_stmt(st, s);
            &&& (assoc_find(st.constants, n) is Some ==> st2 == st && r is Err
                && r->Err_0.kind == Msg::RedeclareConst)
            &&& (assoc_find(st.constants, n) is None && frame_find(st.env.last(), n) is Some
                ==> st2 == st && r is Err && r->Err_0.kind == Msg::RedeclareVar)
            &&& (assoc_find(st.constants, n) is None && frame_find(st.env.last(), n) is None
                && assoc_find(st.functions, n) is Some ==> st2 == st && r is Err
                && r->Err_0.kind == Msg::RedeclareFunc)
        }),
{
}

/// Law: the interpreting pass applies the identical redeclaration rules,
/// in the identical order, as the typechecking pass.
pub proof fn lemma_redeclare_interpret(st: SpecState<WabbitType>, s: Stmt, fuel: nat)
    requires
        st.env.len() >= 1,
        fuel >= 1,
        decl_name(s) is Some,
        s is FuncDef ==> st.env.len() == 1,
    ensures
        ({
            let n = decl_name(s)->Some_0;
            let (st2, r) = ev_stmt(st, s, fuel);
            &&& (assoc_find(st.constants, n) is Some ==> st2 == st && r is Err
                && r->Err_0.kind == Msg::RedeclareConst)
            &&& (assoc_find(st.constants, n) is None && frame_find(st.env.last(), n) is Some
                ==> st2 == st && r is Err && r->Err_0.kind == Msg::RedeclareVar)
            &&& (assoc_find(st.constants, n) is None && frame_find(st.env.last(), n) is None
                && assoc_find(st.functions, n) is Some ==> st2 == st && r is Err
                && r->Err_0.kind == Msg::RedeclareFunc)
        }),
{
}

/// Law: `&&` short-circuits.  When the left operand evaluates to `false`,
/// the conjunction evaluates to `false` and the right operand is never
/// evaluated: the result and the state do not depend on it in any way, even
/// when it references an undefined name.
pub proof fn lemma_short_circuit_and(
    st: SpecState<WabbitType>,
    lhs: Box<Expr>,
    rhs: Box<Expr>,
    id: usize,
    fuel: nat,
)
    requires
        fuel >= 1,
        ev_bool(st, *lhs, id, (fuel - 1) as nat).1 == Ok::<bool, SpecDiagnostic>(false),
    ensures
        ev_expr(st, Expr::Logical { lhs, op: LogicalOp::LogicalAnd, rhs, id }, fuel) == (
            ev_bool(st, *lhs, id, (fuel - 1) as nat).0,
            Ok::<WabbitType, SpecDiagnostic>(WabbitType::Bool(false)),
        ),
{
}

/// Law: `||` short-circuits.  When the left operand evaluates to `true`,
/// the disjunction evaluates to `true` and the right operand is never
/// evaluated.
pub proof fn lemma_short_circuit_or(
    st: SpecState<WabbitType>,
    lhs: Box<Expr>,
    rhs: Box<Expr>,
    id: usize,
    fuel: nat,
)
    requires
        fuel >= 1,
        ev_bool(st, *lhs, id, (fuel - 1) as nat).1 == Ok::<bool, SpecDiagnostic>(true),
    ensures
        ev_expr(st, Expr::Logical { lhs, op: LogicalOp::LogicalOr, rhs, id }, fuel) == (
            ev_bool(st, *lhs, id, (fuel - 1) as nat).0,
            Ok::<WabbitType, SpecDiagnostic>(WabbitType::Bool(true)),
        ),
{
}

/// Law: reading a name that is declared but not yet assigned raises the
/// access-to-uninitialized diagnostic, distinct from the undefined-name
/// diagnostic, and carries the offending name.
pub proof fn lemma_read_uninitialized(
    st: SpecState<WabbitType>,
    name: String,
    id: usize,
    fuel: nat,
)
    requires
        fuel >= 1,
        assoc_find(st.constants, name@) is None,
        env_find(st.env, name@) matches Some(slot) && !slot.is_init(),
    ensures
        ({
            let (st2, r) = ev_expr(st, Expr::VarName { name, id }, fuel);
            &&& st2 == st
            &&& r is Err
            &&& r->Err_0.kind == Msg::AccessUninit
            &&& r->Err_0.args == seq![name@]
        }),
{
}

/// Law: reading a name that is bound nowhere raises the undefined-variable
/// diagnostic.
pub proof fn lemma_read_undefined(st: SpecState<WabbitType>, name: String, id: usize, fuel: nat)
    requires
        fuel >= 1,
        assoc_find(st.constants, name@) is None,
        env_find(st.env, name@) is None,
    ensures
        ({
            let (st2, r) = ev_expr(st, Expr::VarName { name, id }, fuel);
            &&& st2 == st
            &&& r is Err
            &&& r->Err_0.kind == Msg::VarUndefined
        }),
{
}

/// Law: once a slot holds an assigned value, reading the name yields that
/// value, and so in particular a read after an assignment succeeds.
pub proof fn lemma_read_after_assign(
    st: SpecState<WabbitType>,
    name: String,
    id: usize,
    v: WabbitType,
    fuel: nat,
)
    requires
        fuel >= 1,
        assoc_find(st.constants, name@) is None,
        env_find(st.env, name@) == Some(VarStore::Init(v)),
    ensures
        ev_expr(st, Expr::VarName { name, id }, fuel).1 == Ok::<WabbitType, SpecDiagnostic>(v),
{
}

/// Law: an assignment whose evaluated value has a different runtime type
/// than the one the slot already holds is refused with the retyping
/// diagnostic, and the slot keeps its old value.
pub proof fn lemma_assign_retype(
    st: SpecState<WabbitType>,
    name: String,
    value: Expr,
    id: usize,
    fuel: nat,
)
    requires
        fuel >= 1,
        assoc_find(st.constants, name@) is None,
        assoc_find(st.functions, name@) is None,
        ({
            let (st1, r) = ev_expr(st, value, (fuel - 1) as nat);
            r matches Ok(v) && {
                &&& env_find(st1.env, name@) matches Some(slot)
                &&& slot.stored().spec_dtype() != v.spec_dtype()
            }
        }),
    ensures
        ({
            let (st1, rv) = ev_expr(st, value, (fuel - 1) as nat);
            let (st2, r) = ev_stmt(st, Stmt::Assign { name, value, id }, fuel);
            &&& st2 == st1
            &&& r is Err
            &&& r->Err_0.kind == Msg::AssignRetype
        }),
{
}

/// Law: assigning never changes the shape of the chain, only a binding in
/// one frame.
pub proof fn lemma_env_assign_len<T>(env: Seq<SpecFrame<T>>, n: Seq<char>, v: T)
    ensures
        env_assign(env, n, v).len() == env.len(),
    decreases env.len(),
{
    if env.len() == 0 {
    } else if frame_find(env.last(), n) is Some {
    } else {
        lemma_env_assign_len(env.drop_last(), n, v);
    }
}

/// Law: the typechecking of a statement never loses a frame — a statement
/// that completes leaves exactly the frames it found, and one that stops at
/// a diagnostic can only have frames of its own still open.
spec fn env_len_post(st: SpecState<Type>, s: Stmt) -> bool {
    let (st2, r) = tc_stmt(st, s);
    &&& st2.env.len() >= st.env.len()
    &&& (r is Ok ==> st2.env.len() == st.env.len())
}

#[verifier::spinoff_prover]
#[verifier::rlimit(100)]
pub proof fn lemma_tc_stmt_env_len(st: SpecState<Type>, s: Stmt)
    requires
        st.env.len() >= 1,
    ensures
        ({
            let (st2, r) = tc_stmt(st, s);
            &&& st2.env.len() >= st.env.len()
            &&& (r is Ok ==> st2.env.len() == st.env.len())
        }),
    decreases s, 0int,
{
    match s {
        Stmt::Assign { name, value, id } => {
            match tc_expr(st, value) {
                Ok(t) => {
                    lemma_env_assign_len(st.env, name@, t);
                },
                Err(d) => {},
            }
            assert(env_len_post(st, s));
        },
        Stmt::Block { statements, id } => {
            lemma_tc_block_env_len(st, statements@, Seq::empty(), Seq::empty());
            assert(env_len_post(st, s));
        },
        Stmt::While { condition, body, id } => {
            match tc_expr(st, condition) {
                Err(d) => {},
                Ok(ct) => {
                    if ct == Type::Bool {
                        let entered = SpecState {
                            env: st.env.push(Seq::empty()),
                            loop_depth: inc64(st.loop_depth),
                            ..st
                        };
                        lemma_tc_stmt_env_len(entered, *body);
                    }
                },
            }
            assert(env_len_post(st, s));
        },
        Stmt::If { condition, then_block, maybe_else_block, id } => {
            match tc_expr(st, condition) {
                Err(d) => {
                    assert(env_len_post(st, s));
                },
                Ok(ct) => {
                    if ct != Type::Bool {
                        assert(env_len_post(st, s));
                    } else {
                        let entered = SpecState { env: st.env.push(Seq::empty()), ..st };
                        lemma_tc_stmt_env_len(entered, *then_block);
                        let (st1, r_then) = tc_stmt(entered, *then_block);
                        match r_then {
                            Err(d) => {
                                assert(st1.env.len() >= entered.env.len());
                                assert(env_len_post(st, s));
                            },
                            Ok(then_ret) => {
                                assert(st1.env.len() == st.env.len() + 1);
                                let (st2, ex) = spec_exit(st1, id);
                                assert(ex is Ok && st2.env.len() == st.env.len());
                                match maybe_else_block {
                                    None => {
                                        assert(env_len_post(st, s));
                                    },
                                    Some(else_block) => {
                                        let entered2 = SpecState {
                                            env: st2.env.push(Seq::empty()),
                                            ..st2
                                        };
                                        lemma_tc_stmt_env_len(entered2, *else_block);
                                        let (st3, r_else) = tc_stmt(entered2, *else_block);
                                        match r_else {
                                            Err(d) => {
                                                assert(env_len_post(st, s));
                                            },
                                            Ok(else_ret) => {
                                                assert(st3.env.len() == st.env.len() + 1);
                                                let (st4, ex2) = spec_exit(st3, id);
                                                assert(ex2 is Ok && st4.env.len()
                                                    == st.env.len());
                                                assert(env_len_post(st, s));
                                            },
                                        }
                                    },
                                }
                            },
                        }
                    }
                },
            }
        },
        Stmt::FuncDef { def_name, def_params, return_type, body, id } => {
            let (st2, r) = tc_stmt(st, s);
            if st.env.len() == 1 && !(spec_check_constant(st, def_name@, id) is Err) && !(
            spec_check_env(st, def_name@, id) is Err) && !(spec_check_function(
                st,
                def_name@,
                id,
            ) is Err) && !has_dup_params(def_params@) {
                let defined = SpecState { functions: st.functions.push((def_name@, s)), ..st };
                let entered = SpecState {
                    env: defined.env.push(params_frame(def_params@)),
                    call_depth: inc64(defined.call_depth),
                    ..defined
                };
                lemma_tc_stmt_env_len(entered, *body);
            }
            assert(env_len_post(st, s));
        },
        _ => {
            assert(env_len_post(st, s));
        },
    }
}

/// Law: a block's statement-by-statement typechecking preserves the frame
/// count in the same way.
pub proof fn lemma_tc_block_env_len(
    st: SpecState<Type>,
    stmts: Seq<Stmt>,
    types: Seq<Type>,
    guars: Seq<Type>,
)
    requires
        st.env.len() >= 1,
    ensures
        ({
            let (st2, r) = tc_block(st, stmts, types, guars);
            &&& st2.env.len() >= st.env.len()
            &&& (r is Ok ==> st2.env.len() == st.env.len())
        }),
    decreases stmts, 1int,
{
    if stmts.len() == 0 {
    } else {
        lemma_tc_stmt_env_len(st, stmts[0]);
        let (st1, r) = tc_stmt(st, stmts[0]);
        match r {
            Err(d) => {},
            Ok(None) => {
                lemma_tc_block_env_len(st1, stmts.drop_first(), types, guars);
            },
            Ok(Some((t, g))) => {
                lemma_tc_block_env_len(
                    st1,
                    stmts.drop_first(),
                    types.push(t),
                    if g {
                        guars.push(t)
                    } else {
                        guars
                    },
                );
            },
        }
    }
}

/// Law: a conditional, both of whose branches are proved to yield a return
/// of one same type, is accepted and classified as a guaranteed return of
/// that type; branches yielding different types are refused as divergent;
/// and a branch without a return leaves the conditional unguaranteed, which
/// the enclosing block turns into an alternate-branch diagnostic outside a
/// loop.
pub proof fn lemma_if_return_rules(
    st: SpecState<Type>,
    condition: Expr,
    then_block: Box<Stmt>,
    else_block: Box<Stmt>,
    id: usize,
)
    requires
        st.env.len() >= 1,
        tc_expr(st, condition) == Ok::<Type, SpecDiagnostic>(Type::Bool),
    ensures
        ({
            let entered = SpecState { env: st.env.push(Seq::empty()), ..st };
            let (st1, r1) = tc_stmt(entered, *then_block);
            let s = Stmt::If { condition, then_block, maybe_else_block: Some(else_block), id };
            let (stf, r) = tc_stmt(st, s);
            r1 matches Ok(Some((t1, g1))) ==> {
                let (st2, ex) = spec_exit(st1, id);
                let entered2 = SpecState { env: st2.env.push(Seq::empty()), ..st2 };
                let (st3, r2) = tc_stmt(entered2, *else_block);
                &&& (match r2 {
                    Ok(Some((t2, g2))) => (t2 == t1 ==> r == Ok::<
                        Option<(Type, bool)>,
                        SpecDiagnostic,
                    >(Some((t1, true)))) && (t2 != t1 ==> r is Err && r->Err_0.kind
                        == Msg::ReturnDiverge),
                    _ => true,
                })
                &&& (r2 == Ok::<Option<(Type, bool)>, SpecDiagnostic>(None) ==> r == Ok::<
                    Option<(Type, bool)>,
                    SpecDiagnostic,
                >(Some((t1, false))))
            }
        }),
{
    let entered = SpecState { env: st.env.push(Seq::empty()), ..st };
    lemma_tc_stmt_env_len(entered, *then_block);
    let (st1, r1) = tc_stmt(entered, *then_block);
    if r1 matches Ok(Some((t1, g1))) {
        assert(st1.env.len() == st.env.len() + 1);
        let (st2, ex) = spec_exit(st1, id);
        assert(ex is Ok);
        let entered2 = SpecState { env: st2.env.push(Seq::empty()), ..st2 };
        lemma_tc_stmt_env_len(entered2, *else_block);
        let (st3, r2) = tc_stmt(entered2, *else_block);
        if r2 is Ok {
            assert(st3.env.len() == st2.env.len() + 1);
            assert(spec_exit(st3, id).1 is Ok);
        }
    }
}

/// Law: a conditional without an `else`, whose branch yields a return, is
/// accepted but never guaranteed: the return type is passed on with the
/// guarantee withheld.
pub proof fn lemma_if_no_else_unguaranteed(
    st: SpecState<Type>,
    condition: Expr,
    then_block: Box<Stmt>,
    id: usize,
)
    requires
        st.env.len() >= 1,
        tc_expr(st, condition) == Ok::<Type, SpecDiagnostic>(Type::Bool),
    ensures
        ({
            let entered = SpecState { env: st.env.push(Seq::empty()), ..st };
            let (st1, r1) = tc_stmt(entered, *then_block);
            let s = Stmt::If { condition, then_block, maybe_else_block: None, id };
            let (stf, r) = tc_stmt(st, s);
            r1 matches Ok(Some((t1, g1))) ==> r == Ok::<
                Option<(Type, bool)>,
                SpecDiagnostic,
            >(Some((t1, false)))
        }),
{
    let entered = SpecState { env: st.env.push(Seq::empty()), ..st };
    lemma_tc_stmt_env_len(entered, *then_block);
}

/// Law: a block that collects return types but can guarantee none of them,
/// outside any loop, is refused with the alternate-branch diagnostic; the
/// same collection inside a loop is excused; and agreeing guaranteed types
/// are accepted while disagreeing ones are refused as divergent.
pub proof fn lemma_alternate_branch(st: SpecState<Type>, statements: Vec<Stmt>, id: usize)
    ensures
        ({
            let (st1, r) = tc_block(st, statements@, Seq::empty(), Seq::empty());
            r matches Ok((types, guars)) ==> {
                let (st2, rb) = tc_stmt(st, Stmt::Block { statements, id });
                &&& (types.len() > 0 && guars.len() == 0 && st1.loop_depth == 0 ==> rb is Err
                    && rb->Err_0.kind == Msg::AltBranch)
                &&& (types.len() > 0 && (guars.len() > 0 || st1.loop_depth > 0) && seq_all_eq(
                    types,
                ) ==> rb == Ok::<Option<(Type, bool)>, SpecDiagnostic>(Some((types[0], true))))
                &&& (types.len() > 0 && (guars.len() > 0 || st1.loop_depth > 0) && !seq_all_eq(
                    types,
                ) ==> rb is Err && rb->Err_0.kind == Msg::ReturnDiverge)
                &&& (types.len() == 0 ==> rb == Ok::<Option<(Type, bool)>, SpecDiagnostic>(None))
            }
        }),
{
}

/// Law (a piece of type soundness): a binary operation on two integer
/// values never raises a type diagnostic — the only runtime refusal left is
/// integer division whose quotient does not exist.
pub proof fn lemma_int_binary_no_type_error(op: BinaryOp, a: i32, b: i32, id: usize)
    ensures
        ({
            let r = ev_binary(op, WabbitType::Int(a), WabbitType::Int(b), id);
            match r {
                Ok(v) => true,
                Err(d) => d.kind == Msg::DivByZero && op == BinaryOp::Divide,
            }
        }),
{
}


/// Law (a piece of type soundness): a conversion that the typechecker
/// accepts between integer, boolean and character types is performed by the
/// interpreter without any diagnostic.
pub proof fn lemma_convert_soundness(target: Type, v: WabbitType, id: usize, id2: usize)
    requires
        spec_convert_type(target, v.spec_dtype(), id) is Ok,
        !(target is Float),
        !(v.spec_dtype() is Float),
        !(v is TypeHolder),
    ensures
        ev_convert(target, v, id2) is Ok,
{
}

/// Law (a piece of type soundness): unary plus and minus on an integer
/// value never raise a diagnostic.
pub proof fn lemma_int_unary_no_error(a: i32, id: usize)
    ensures
        ev_plus(WabbitType::Int(a), id) is Ok,
        ev_minus(WabbitType::Int(a), id) is Ok,
{
}

/// Law: the operand of `!` is evaluated exactly once: the negation leaves
/// the state exactly as that single evaluation left it, and negates that
/// single result.
pub proof fn lemma_logical_not_single_evaluation(
    st: SpecState<WabbitType>,
    operand: Box<Expr>,
    id: usize,
    fuel: nat,
)
    requires
        fuel >= 1,
    ensures
        ({
            let (st1, r) = ev_expr(st, *operand, (fuel - 1) as nat);
            let (st2, rn) = ev_expr(
                st,
                Expr::Unary { op: UnaryOp::LogicalNot, operand, id },
                fuel,
            );
            &&& st2 == st1
            &&& (match r {
                Ok(v) => (match v {
                    WabbitType::Bool(b) => rn == Ok::<WabbitType, SpecDiagnostic>(
                        WabbitType::Bool(!b),
                    ),
                    _ => rn == Err::<WabbitType, SpecDiagnostic>(
                        spec_diag1(Msg::ExpectType, id, "bool"@),
                    ),
                }),
                Err(d) => rn == Err::<WabbitType, SpecDiagnostic>(d),
            })
        }),
{
    let f = (fuel - 1) as nat;
    let (st1, r) = ev_expr(st, *operand, f);
    let e = Expr::Unary { op: UnaryOp::LogicalNot, operand, id };
    assert(ev_expr(st, e, fuel) == (match r {
        Err(d) => (st1, Err::<WabbitType, SpecDiagnostic>(d)),
        Ok(v) => match v {
            WabbitType::Bool(b) => (st1, Ok::<WabbitType, SpecDiagnostic>(WabbitType::Bool(!b))),
            _ => (st1, Err::<WabbitType, SpecDiagnostic>(spec_diag1(Msg::ExpectType, id, "bool"@))),
        },
    }));
}

/// Law: a function body's name lookup reaches only the parameter frame and
/// the global frame — the call environment holds exactly those two frames,
/// so a caller's locals are invisible to the callee.
pub proof fn lemma_call_env_isolation<T>(g: SpecFrame<T>, p: SpecFrame<T>, n: Seq<char>)
    ensures
        env_find(seq![g, p], n) == (match frame_find(p, n) {
            Some(slot) => Some(slot),
            None => frame_find(g, n),
        }),
{
    reveal_with_fuel(env_find, 3);
    let env = seq![g, p];
    assert(env.last() == p);
    assert(env.drop_last() =~~= seq![g]);
    assert(seq![g].last() == g);
    assert(seq![g].drop_last() =~~= Seq::<SpecFrame<T>>::empty());
}

pub open spec fn body_tables_post(st: SpecState<Type>, s: Stmt) -> bool {
    let (st2, r) = tc_stmt(st, s);
    &&& st2.functions == st.functions
    &&& st2.constants == st.constants
    &&& (r is Ok ==> st2.call_depth == st.call_depth && st2.loop_depth == st.loop_depth)
}

/// Law: below the global frame — inside any function body or nested block —
/// the typechecking walk never touches the flat constant or function
/// tables (definitions of either kind are refused there before any binding
/// is made), and a walk that completes restores both nesting counters.
#[verifier::spinoff_prover]
#[verifier::rlimit(100)]
pub proof fn lemma_tc_body_tables(st: SpecState<Type>, s: Stmt)
    requires
        st.env.len() >= 2,
    ensures
        body_tables_post(st, s),
    decreases s, 0int,
{
    match s {
        Stmt::Block { statements, id } => {
            lemma_tc_block_body_tables(st, statements@, Seq::empty(), Seq::empty());
            assert(body_tables_post(st, s));
        },
        Stmt::While { condition, body, id } => {
            match tc_expr(st, condition) {
                Err(d) => {},
                Ok(ct) => {
                    if ct == Type::Bool {
                        let entered = SpecState {
                            env: st.env.push(Seq::empty()),
                            loop_depth: inc64(st.loop_depth),
                            ..st
                        };
                        lemma_tc_stmt_env_len(entered, *body);
                        lemma_tc_body_tables(entered, *body);
                    }
                },
            }
            assert(body_tables_post(st, s));
        },
        Stmt::If { condition, then_block, maybe_else_block, id } => {
            match tc_expr(st, condition) {
                Err(d) => {},
                Ok(ct) => {
                    if ct == Type::Bool {
                        let entered = SpecState { env: st.env.push(Seq::empty()), ..st };
                        lemma_tc_stmt_env_len(entered, *then_block);
                        lemma_tc_body_tables(entered, *then_block);
                        let (st1, r_then) = tc_stmt(entered, *then_block);
                        if r_then is Ok {
                            let (st2, ex) = spec_exit(st1, id);
                            match maybe_else_block {
                                None => {},
                                Some(else_block) => {
                                    if ex is Ok {
                                        let entered2 = SpecState {
                                            env: st2.env.push(Seq::empty()),
                                            ..st2
                                        };
                                        lemma_tc_stmt_env_len(entered2, *else_block);
                                        lemma_tc_body_tables(entered2, *else_block);
                                    }
                                },
                            }
                        }
                    }
                },
            }
            assert(body_tables_post(st, s));
        },
        Stmt::Assign { name, value, id } => {
            assert(body_tables_post(st, s));
        },
        _ => {
            assert(body_tables_post(st, s));
        },
    }
}

/// Law: the block form of the table- and counter-preservation law.
pub proof fn lemma_tc_block_body_tables(
    st: SpecState<Type>,
    stmts: Seq<Stmt>,
    types: Seq<Type>,
    guars: Seq<Type>,
)
    requires
        st.env.len() >= 2,
    ensures
        ({
            let (st2, r) = tc_block(st, stmts, types, guars);
            &&& st2.functions == st.functions
            &&& st2.constants == st.constants
            &&& (r is Ok ==> st2.call_depth == st.call_depth && st2.loop_depth == st.loop_depth)
        }),
    decreases stmts, 1int,
{
    if stmts.len() == 0 {
    } else {
        lemma_tc_stmt_env_len(st, stmts[0]);
        lemma_tc_body_tables(st, stmts[0]);
        let (st1, r) = tc_stmt(st, stmts[0]);
        match r {
            Err(d) => {},
            Ok(None) => {
                lemma_tc_block_body_tables(st1, stmts.drop_first(), types, guars);
            },
            Ok(Some((t, g))) => {
                lemma_tc_block_body_tables(
                    st1,
                    stmts.drop_first(),
                    types.push(t),
                    if g {
                        guars.push(t)
                    } else {
                        guars
                    },
                );
            },
        }
    }
}

/// Law: a global function definition that passes the redeclaration guards,
/// with unique parameters, whose body yields a return of exactly the
/// declared type, is accepted: the definition stays in the function table,
/// and the frame depth and both nesting counters come back as they were.
pub proof fn lemma_funcdef_accepted(
    st: SpecState<Type>,
    def_name: String,
    def_params: Vec<(String, Type)>,
    return_type: Type,
    body: Box<Stmt>,
    id: usize,
)
    requires
        st.env.len() == 1,
        spec_check_constant(st, def_name@, id) is Ok,
        spec_check_env(st, def_name@, id) is Ok,
        spec_check_function(st, def_name@, id) is Ok,
        !has_dup_params(def_params@),
    ensures
        ({
            let s = Stmt::FuncDef { def_name, def_params, return_type, body, id };
            let defined = SpecState { functions: st.functions.push((def_name@, s)), ..st };
            let entered = SpecState {
                env: defined.env.push(params_frame(def_params@)),
                call_depth: inc64(defined.call_depth),
                ..defined
            };
            let (st1, r1) = tc_stmt(entered, *body);
            let (st2, r) = tc_stmt(st, s);
            (match r1 {
                Ok(Some((t, g))) => t == return_type,
                _ => false,
            }) ==> {
                &&& r == Ok::<Option<(Type, bool)>, SpecDiagnostic>(None)
                &&& st2.functions == st.functions.push((def_name@, s))
                &&& st2.constants == st.constants
                &&& st2.env.len() == st.env.len()
                &&& st2.call_depth == st.call_depth
                &&& st2.loop_depth == st.loop_depth
            }
        }),
{
    let s = Stmt::FuncDef { def_name, def_params, return_type, body, id };
    let defined = SpecState { functions: st.functions.push((def_name@, s)), ..st };
    let entered = SpecState {
        env: defined.env.push(params_frame(def_params@)),
        call_depth: inc64(defined.call_depth),
        ..defined
    };
    lemma_tc_stmt_env_len(entered, *body);
    lemma_tc_body_tables(entered, *body);
    let (st1, r1) = tc_stmt(entered, *body);
    if r1 is Ok {
        assert(st1.env.len() == 2);
        let (st_exit, ex) = spec_exit(st1, id);
        assert(ex is Ok);
    }
}

pub open spec fn ev_env_len_post(
    before: Seq<SpecFrame<WabbitType>>,
    after: Seq<SpecFrame<WabbitType>>,
    ok: bool,
) -> bool {
    &&& after.len() >= 1
    &&& (ok ==> after.len() == before.len())
}

/// Law: evaluating an expression that completes leaves exactly the frames
/// it found — every frame a call opens is closed again — and even an
/// evaluation that stops at a diagnostic keeps the global frame.
#[verifier::spinoff_prover]
#[verifier::rlimit(100)]
pub proof fn lemma_ev_expr_env_len(st: SpecState<WabbitType>, e: Expr, fuel: nat)
    requires
        st.env.len() >= 1,
    ensures
        ({
            let (st2, r) = ev_expr(st, e, fuel);
            ev_env_len_post(st.env, st2.env, r is Ok)
        }),
    decreases fuel, e, 0int,
{
    if fuel == 0 {
    } else {
        let f = (fuel - 1) as nat;
        match e {
            Expr::Grouping { e: inner, id } => {
                lemma_ev_expr_env_len(st, *inner, f);
            },
            Expr::TypeConversion { dtype, params, id } => {
                if params@.len() == 1 {
                    lemma_ev_expr_env_len(st, params@[0], f);
                }
            },
            Expr::Unary { op, operand, id } => {
                lemma_ev_expr_env_len(st, *operand, f);
            },
            Expr::Logical { lhs, op, rhs, id } => {
                lemma_ev_bool_env_len(st, *lhs, id, f);
                let (st1, rb) = ev_bool(st, *lhs, id, f);
                if rb is Ok {
                    lemma_ev_bool_env_len(st1, *rhs, id, f);
                }
            },
            Expr::Binary { lhs, op, rhs, id } => {
                lemma_ev_expr_env_len(st, *lhs, f);
                let (st1, rl) = ev_expr(st, *lhs, f);
                if rl is Ok {
                    lemma_ev_expr_env_len(st1, *rhs, f);
                }
            },
            Expr::Call { name, params, id } => {
                match assoc_find(st.functions, name@) {
                    Some(found) => match found {
                        Stmt::FuncDef { def_name, def_params, return_type, body, id: def_id } => {
                            if params@.len() == def_params@.len() {
                                lemma_ev_args_env_len(
                                    st,
                                    params@,
                                    def_params@,
                                    def_id,
                                    f,
                                    Seq::empty(),
                                );
                                let (st1, ra) = ev_args(
                                    st,
                                    params@,
                                    def_params@,
                                    def_id,
                                    f,
                                    Seq::empty(),
                                );
                                match ra {
                                    Err(d) => {},
                                    Ok(frame) => {
                                        if !has_dup_params(def_params@) {
                                            let entered = SpecState {
                                                env: seq![st1.env[0], frame],
                                                call_depth: inc64(st1.call_depth),
                                                ..st1
                                            };
                                            lemma_ev_stmt_env_len(entered, *body, f);
                                        }
                                    },
                                }
                            }
                        },
                        _ => {},
                    },
                    None => {},
                }
            },
            _ => {},
        }
    }
}

/// Law: the boolean form of the frame-balance law.
pub proof fn lemma_ev_bool_env_len(st: SpecState<WabbitType>, e: Expr, id: usize, fuel: nat)
    requires
        st.env.len() >= 1,
    ensures
        ({
            let (st2, r) = ev_bool(st, e, id, fuel);
            ev_env_len_post(st.env, st2.env, r is Ok)
        }),
    decreases fuel, e, 1int,
{
    lemma_ev_expr_env_len(st, e, fuel);
}

/// Law: the argument-list form of the frame-balance law.
pub proof fn lemma_ev_args_env_len(
    st: SpecState<WabbitType>,
    args: Seq<Expr>,
    params: Seq<(String, Type)>,
    def_id: usize,
    fuel: nat,
    acc: SpecFrame<WabbitType>,
)
    requires
        st.env.len() >= 1,
    ensures
        ({
            let (st2, r) = ev_args(st, args, params, def_id, fuel, acc);
            ev_env_len_post(st.env, st2.env, r is Ok)
        }),
    decreases fuel, args, 0int,
{
    if args.len() == 0 {
    } else {
        lemma_ev_expr_env_len(st, args[0], fuel);
        let (st1, r) = ev_expr(st, args[0], fuel);
        match r {
            Err(d) => {},
            Ok(v) => {
                if !(params.len() > 0 && v.spec_dtype() != params[0].1) {
                    lemma_ev_args_env_len(
                        st1,
                        args.drop_first(),
                        params.drop_first(),
                        def_id,
                        fuel,
                        acc.push(
                            (
                                if params.len() > 0 {
                                    params[0].0@
                                } else {
                                    Seq::empty()
                                },
                                VarStore::Init(v),
                            ),
                        ),
                    );
                }
            },
        }
    }
}

/// Law: executing a statement that completes leaves exactly the frames it
/// found; every frame a block, branch, loop iteration or call opens is
/// closed again.
#[verifier::spinoff_prover]
#[verifier::rlimit(100)]
pub proof fn lemma_ev_stmt_env_len(st: SpecState<WabbitType>, s: Stmt, fuel: nat)
    requires
        st.env.len() >= 1,
    ensures
        ({
            let (st2, r) = ev_stmt(st, s, fuel);
            ev_env_len_post(st.env, st2.env, r is Ok)
        }),
    decreases fuel, s, 0int,
{
    if fuel == 0 {
    } else {
        let f = (fuel - 1) as nat;
        match s {
            Stmt::Return { value, id } => {
                lemma_ev_expr_env_len(st, value, f);
            },
            Stmt::Expr(e) => {
                lemma_ev_expr_env_len(st, e, f);
            },
            Stmt::Print { value, id } => {
                lemma_ev_expr_env_len(st, value, f);
            },
            Stmt::Assign { name, value, id } => {
                if spec_check_constant(st, name@, id) is Ok && spec_check_function(
                    st,
                    name@,
                    id,
                ) is Ok {
                    lemma_ev_expr_env_len(st, value, f);
                    let (st1, r) = ev_expr(st, value, f);
                    match r {
                        Err(d) => {},
                        Ok(v) => {
                            lemma_env_assign_len(st1.env, name@, v);
                        },
                    }
                }
            },
            Stmt::ConstDef { name, maybe_type, value, id } => {
                if spec_check_constant(st, name@, id) is Ok && spec_check_env(st, name@, id) is Ok
                    && spec_check_function(st, name@, id) is Ok && st.env.len() == 1 {
                    lemma_ev_expr_env_len(st, value, f);
                }
            },
            Stmt::VarDef { name, maybe_type, maybe_value, id } => {
                match maybe_value {
                    Some(value) => {
                        lemma_ev_expr_env_len(st, value, f);
                    },
                    None => {},
                }
            },
            Stmt::While { condition, body, id } => {
                lemma_ev_bool_env_len(st, condition, id, f);
                let (st1, rb) = ev_bool(st, condition, id, f);
                match rb {
                    Err(d) => {},
                    Ok(b) => {
                        if b {
                            let entered = SpecState {
                                env: st1.env.push(Seq::empty()),
                                loop_depth: inc64(st1.loop_depth),
                                ..st1
                            };
                            lemma_ev_stmt_env_len(entered, *body, f);
                            let (st2, rs) = ev_stmt(entered, *body, f);
                            match rs {
                                Err(d) => {},
                                Ok(sig) => match sig {
                                    Signal::Unit | Signal::Continue => {
                                        let restored = SpecState {
                                            loop_depth: st1.loop_depth,
                                            ..st2
                                        };
                                        let (st3, ex) = spec_exit(restored, id);
                                        if ex is Ok {
                                            lemma_ev_stmt_env_len(st3, s, f);
                                        }
                                    },
                                    _ => {},
                                },
                            }
                        }
                    },
                }
            },
            Stmt::If { condition, then_block, maybe_else_block, id } => {
                lemma_ev_bool_env_len(st, condition, id, f);
                let (st1, rb) = ev_bool(st, condition, id, f);
                match rb {
                    Err(d) => {},
                    Ok(b) => {
                        let entered = SpecState { env: st1.env.push(Seq::empty()), ..st1 };
                        if b {
                            lemma_ev_stmt_env_len(entered, *then_block, f);
                        } else {
                            match maybe_else_block {
                                Some(else_block) => {
                                    lemma_ev_stmt_env_len(entered, *else_block, f);
                                },
                                None => {},
                            }
                        }
                    },
                }
            },
            Stmt::Block { statements, id } => {
                lemma_ev_block_env_len(st, statements@, f);
            },
            _ => {},
        }
    }
}

/// Law: the block form of the frame-balance law.
pub proof fn lemma_ev_block_env_len(st: SpecState<WabbitType>, stmts: Seq<Stmt>, fuel: nat)
    requires
        st.env.len() >= 1,
    ensures
        ({
            let (st2, r) = ev_block(st, stmts, fuel);
            ev_env_len_post(st.env, st2.env, r is Ok)
        }),
    decreases fuel, stmts, 0int,
{
    if stmts.len() == 0 {
    } else {
        lemma_ev_stmt_env_len(st, stmts[0], fuel);
        let (st1, r) = ev_stmt(st, stmts[0], fuel);
        match r {
            Ok(Signal::Unit) => {
                lemma_ev_block_env_len(st1, stmts.drop_first(), fuel);
            },
            _ => {},
        }
    }
}

/// Law: a loop iteration that yields `Break` consumes the signal at the
/// nearest enclosing `while`: the iteration frame is popped, the loop depth
/// is restored, the condition is not re-tested, and the loop completes with
/// the `Unit` signal — `Break` never propagates past the loop.
pub proof fn lemma_while_break(
    st: SpecState<WabbitType>,
    condition: Expr,
    body: Box<Stmt>,
    id: usize,
    fuel: nat,
)
    requires
        st.env.len() >= 1,
        fuel >= 1,
    ensures
        ({
            let f = (fuel - 1) as nat;
            let (st1, rb) = ev_bool(st, condition, id, f);
            let entered = SpecState {
                env: st1.env.push(Seq::empty()),
                loop_depth: inc64(st1.loop_depth),
                ..st1
            };
            let (st2, rs) = ev_stmt(entered, *body, f);
            let (stw, rw) = ev_stmt(st, Stmt::While { condition, body, id }, fuel);
            rb == Ok::<bool, SpecDiagnostic>(true) && rs == Ok::<Signal, SpecDiagnostic>(
                Signal::Break,
            ) ==> {
                &&& rw == Ok::<Signal, SpecDiagnostic>(Signal::Unit)
                &&& stw.env == st2.env.drop_last()
                &&& stw.env.len() == st1.env.len()
                &&& stw.loop_depth == st1.loop_depth
                &&& stw.output == st2.output
            }
        }),
{
    let f = (fuel - 1) as nat;
    lemma_ev_bool_env_len(st, condition, id, f);
    let (st1, rb) = ev_bool(st, condition, id, f);
    if rb == Ok::<bool, SpecDiagnostic>(true) {
        let entered = SpecState {
            env: st1.env.push(Seq::empty()),
            loop_depth: inc64(st1.loop_depth),
            ..st1
        };
        lemma_ev_stmt_env_len(entered, *body, f);
        let (st2, rs) = ev_stmt(entered, *body, f);
        if rs == Ok::<Signal, SpecDiagnostic>(Signal::Break) {
            assert(st2.env.len() == st1.env.len() + 1);
            assert(spec_exit(st2, id).1 is Ok);
        }
    }
}
} // verus!
