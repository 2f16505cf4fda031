use dynfmt::{Format, SimpleCurlyFormat};
use std::collections::HashMap;
use wabbit::{BinaryOp, Expr, LoopControl, Msg, Stmt, Type, Typechecker, UnaryOp, WabbitType};

fn lit(n: i32) -> Expr {
    Expr::Literal { value: WabbitType::from(n), id: 0 }
}

fn flit(x: f64) -> Expr {
    Expr::Literal { value: WabbitType::Float(x.to_bits()), id: 0 }
}

fn clit(c: char) -> Expr {
    Expr::Literal { value: WabbitType::from(c), id: 0 }
}

fn blit(b: bool) -> Expr {
    Expr::Literal { value: WabbitType::from(b), id: 0 }
}

fn var(name: &str) -> Expr {
    Expr::VarName { name: name.to_string(), id: 0 }
}

fn bin(lhs: Expr, op: BinaryOp, rhs: Expr) -> Expr {
    Expr::Binary { lhs: Box::new(lhs), op, rhs: Box::new(rhs), id: 0 }
}

fn call(name: &str, params: Vec<Expr>) -> Expr {
    Expr::Call { name: name.to_string(), params, id: 0 }
}

fn convert(dtype: Type, params: Vec<Expr>) -> Expr {
    Expr::TypeConversion { dtype, params, id: 0 }
}

fn print_stmt(value: Expr) -> Stmt {
    Stmt::Print { value, id: 0 }
}

fn var_def(name: &str, maybe_type: Option<Type>, maybe_value: Option<Expr>) -> Stmt {
    Stmt::VarDef { name: name.to_string(), maybe_type, maybe_value, id: 0 }
}

fn const_def(name: &str, maybe_type: Option<Type>, value: Expr) -> Stmt {
    Stmt::ConstDef { name: name.to_string(), maybe_type, value, id: 0 }
}

fn assign(name: &str, value: Expr) -> Stmt {
    Stmt::Assign { name: name.to_string(), value, id: 0 }
}

fn block(statements: Vec<Stmt>) -> Stmt {
    Stmt::Block { statements, id: 0 }
}

fn func_def(name: &str, params: Vec<(&str, Type)>, ret: Type, body: Vec<Stmt>) -> Stmt {
    Stmt::FuncDef {
        def_name: name.to_string(),
        def_params: params.into_iter().map(|(n, t)| (n.to_string(), t)).collect(),
        return_type: ret,
        body: Box::new(block(body)),
        id: 0,
    }
}

fn if_stmt(condition: Expr, then_block: Vec<Stmt>, maybe_else: Option<Vec<Stmt>>) -> Stmt {
    Stmt::If {
        condition,
        then_block: Box::new(block(then_block)),
        maybe_else_block: maybe_else.map(|stmts| Box::new(block(stmts))),
        id: 0,
    }
}

fn return_stmt(value: Expr) -> Stmt {
    Stmt::Return { value, id: 0 }
}

fn red(s: &str) -> String {
    format!("\x1b[31m{}\x1b[0m", s)
}

fn expect_err(program: Vec<Stmt>, expected_error: Msg) {
    let ranges: HashMap<usize, (usize, usize)> = HashMap::new();
    let mut typechecker = Typechecker::new();
    if let Err(e) = typechecker.typecheck(&program, &ranges) {
        assert_eq!(e.label, red(expected_error.msg()));
    } else {
        panic!()
    }
}

fn expect_err_args(program: Vec<Stmt>, expected_error: Msg, args: &[&str]) {
    let msg = SimpleCurlyFormat
        .format(expected_error.msg(), args)
        .expect("format error");
    let ranges: HashMap<usize, (usize, usize)> = HashMap::new();
    let mut typechecker = Typechecker::new();
    if let Err(e) = typechecker.typecheck(&program, &ranges) {
        assert_eq!(e.label, red(&msg));
    } else {
        panic!()
    }
}

#[test]
fn alt_branch_1() {
    let program = vec![func_def(
        "u",
        vec![("x", Type::Int)],
        Type::Int,
        vec![if_stmt(
            bin(var("x"), BinaryOp::Greater, lit(0)),
            vec![return_stmt(lit(2))],
            None,
        )],
    )];
    expect_err(program, Msg::AltBranch)
}

#[test]
fn alt_branch_2() {
    let program = vec![func_def(
        "u",
        vec![("x", Type::Int)],
        Type::Int,
        vec![if_stmt(
            bin(var("x"), BinaryOp::Greater, lit(0)),
            vec![return_stmt(lit(2))],
            Some(vec![print_stmt(lit(1))]),
        )],
    )];
    expect_err(program, Msg::AltBranch)
}

#[test]
fn dup_args() {
    let program = vec![func_def(
        "run",
        vec![("x", Type::Int), ("x", Type::Int)],
        Type::Int,
        vec![return_stmt(var("x"))],
    )];
    expect_err(program, Msg::DupArgs)
}

#[test]
fn func_def_scope() {
    let program = vec![if_stmt(
        blit(true),
        vec![func_def("run", vec![], Type::Int, vec![return_stmt(lit(0))])],
        None,
    )];
    expect_err(program, Msg::FuncDefScope)
}

#[test]
fn const_scope() {
    let program = vec![if_stmt(
        blit(true),
        vec![const_def("pi", None, flit(3.14))],
        None,
    )];
    expect_err(program, Msg::ConstScope)
}

#[test]
fn return_scope() {
    expect_err(vec![return_stmt(lit(0))], Msg::ReturnScope)
}

#[test]
fn loop_req() {
    expect_err(
        vec![Stmt::LoopControl { control: LoopControl::Break, id: 0 }],
        Msg::LoopReq,
    );
    expect_err(
        vec![Stmt::LoopControl { control: LoopControl::Continue, id: 0 }],
        Msg::LoopReq,
    );
}

#[test]
fn assign_retype() {
    let program = vec![
        var_def("x", Some(Type::Int), Some(lit(1))),
        assign("x", flit(1.0)),
    ];
    expect_err_args(program, Msg::AssignRetype, &["x", "int", "float"])
}

#[test]
fn var_undefined() {
    expect_err(vec![Stmt::Expr(var("x"))], Msg::VarUndefined);
}

#[test]
fn func_undefined() {
    expect_err(vec![Stmt::Expr(call("x", vec![]))], Msg::FuncUndefined);
}

#[test]
fn assign_undefined() {
    expect_err(vec![assign("x", lit(1))], Msg::AssignUndefined);
}

#[test]
fn init_type() {
    expect_err(
        vec![var_def("x", Some(Type::Int), Some(flit(1.0)))],
        Msg::InitType,
    );
}

#[test]
fn type_convert() {
    expect_err(
        vec![Stmt::Expr(convert(Type::Bool, vec![flit(1.0)]))],
        Msg::TypeConvert,
    );
    expect_err(
        vec![Stmt::Expr(convert(Type::Bool, vec![clit('c')]))],
        Msg::TypeConvert,
    );
    expect_err(
        vec![Stmt::Expr(convert(Type::Float, vec![clit('c')]))],
        Msg::TypeConvert,
    );
    expect_err(
        vec![Stmt::Expr(convert(Type::Float, vec![blit(true)]))],
        Msg::TypeConvert,
    );
}

#[test]
fn convert_airty() {
    expect_err(
        vec![Stmt::Expr(convert(Type::Int, vec![flit(1.0), flit(2.0)]))],
        Msg::ConvertAirty,
    );
}

#[test]
fn func_airty() {
    let program = vec![
        func_def("run", vec![], Type::Int, vec![return_stmt(lit(0))]),
        Stmt::Expr(call("run", vec![lit(1)])),
    ];
    expect_err_args(program, Msg::FuncAirty, &["run", "0", "1"])
}

#[test]
fn param_type() {
    let program = vec![
        func_def("self", vec![("x", Type::Int)], Type::Int, vec![return_stmt(var("x"))]),
        Stmt::Expr(call("self", vec![flit(1.0)])),
    ];
    expect_err_args(program, Msg::ParamType, &["x", "int", "float"])
}

#[test]
fn return_type() {
    let program = vec![func_def(
        "self",
        vec![("x", Type::Int)],
        Type::Int,
        vec![return_stmt(convert(Type::Float, vec![var("x")]))],
    )];
    expect_err_args(program, Msg::ReturnType, &["self", "int", "float"])
}

#[test]
fn no_return() {
    let program = vec![func_def(
        "hi",
        vec![],
        Type::Int,
        vec![
            print_stmt(clit('h')),
            print_stmt(clit('i')),
            print_stmt(clit('\n')),
        ],
    )];
    expect_err(program, Msg::NoReturn)
}

#[test]
fn type_eval() {
    let program = vec![print_stmt(Expr::TypeName { dtype: Type::Int, id: 0 })];
    expect_err(program, Msg::TypeEval)
}

#[test]
fn access_uninit() {
    let program = vec![
        var_def("x", Some(Type::Int), None),
        print_stmt(var("x")),
    ];
    expect_err_args(program, Msg::AccessUninit, &["x"])
}

#[test]
fn expect_type() {
    let program = vec![if_stmt(lit(1), vec![print_stmt(lit(1))], None)];
    expect_err_args(program, Msg::ExpectType, &["bool"])
}

#[test]
fn type_match() {
    expect_err(
        vec![Stmt::Expr(bin(lit(1), BinaryOp::Plus, flit(1.0)))],
        Msg::TypeMatch,
    )
}

#[test]
fn return_diverge() {
    let program = vec![func_def(
        "run",
        vec![],
        Type::Int,
        vec![if_stmt(
            blit(true),
            vec![return_stmt(blit(true))],
            Some(vec![return_stmt(lit(1))]),
        )],
    )];
    expect_err(program, Msg::ReturnDiverge)
}

#[test]
fn redeclare_var() {
    let program = vec![
        var_def("x", Some(Type::Int), Some(lit(1))),
        var_def("x", Some(Type::Int), Some(lit(2))),
    ];
    expect_err_args(program, Msg::RedeclareVar, &["x"])
}

#[test]
fn redeclare_const() {
    let program = vec![
        const_def("x", Some(Type::Int), lit(1)),
        const_def("x", Some(Type::Int), lit(2)),
    ];
    expect_err_args(program, Msg::RedeclareConst, &["x"])
}

#[test]
fn redeclare_func() {
    let program = vec![
        func_def("x", vec![], Type::Int, vec![return_stmt(lit(0))]),
        func_def("x", vec![], Type::Int, vec![return_stmt(lit(0))]),
    ];
    expect_err_args(program, Msg::RedeclareFunc, &["x"])
}

#[test]
fn accepted_if_with_both_returns() {
    let program = vec![func_def(
        "pick",
        vec![("x", Type::Int)],
        Type::Int,
        vec![if_stmt(
            bin(var("x"), BinaryOp::Greater, lit(0)),
            vec![return_stmt(lit(1))],
            Some(vec![return_stmt(lit(2))]),
        )],
    )];
    let ranges: HashMap<usize, (usize, usize)> = HashMap::new();
    let mut typechecker = Typechecker::new();
    assert!(typechecker.typecheck(&program, &ranges).is_ok());
}

#[test]
fn while_return_not_guaranteed() {
    // a function whose only return sits inside a loop is refused: the loop
    // may run zero times
    let program = vec![func_def(
        "f",
        vec![],
        Type::Int,
        vec![Stmt::While {
            condition: blit(true),
            body: Box::new(block(vec![return_stmt(lit(7))])),
            id: 0,
        }],
    )];
    expect_err(program, Msg::AltBranch)
}

#[test]
fn unary_operand_class() {
    let program = vec![Stmt::Expr(Expr::Unary {
        op: UnaryOp::Minus,
        operand: Box::new(blit(true)),
        id: 0,
    })];
    expect_err_args(program, Msg::ExpectType, &["int, float"])
}

#[test]
fn float_typechecks_statically() {
    // the typechecker accepts float arithmetic even though the interpreter
    // refuses to evaluate it
    let program = vec![
        var_def("x", Some(Type::Float), Some(flit(1.5))),
        assign("x", bin(var("x"), BinaryOp::Plus, flit(2.5))),
        print_stmt(var("x")),
    ];
    let ranges: HashMap<usize, (usize, usize)> = HashMap::new();
    let mut typechecker = Typechecker::new();
    assert!(typechecker.typecheck(&program, &ranges).is_ok());
}

#[test]
fn assign_to_constant_is_refused() {
    let program = vec![
        const_def("k", None, lit(1)),
        assign("k", lit(2)),
    ];
    expect_err_args(program, Msg::RedeclareConst, &["k"])
}

#[test]
fn malformed_vardef_is_an_internal_error() {
    let program = vec![var_def("x", None, None)];
    expect_err_args(
        program,
        Msg::InternalErr,
        &["Parser allowed variable definition without type or initial value"],
    )
}
