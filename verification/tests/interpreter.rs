use dynfmt::{Format, SimpleCurlyFormat};
use std::collections::HashMap;
use wabbit::{
    BinaryOp, Expr, Interpreter, LogicalOp, LoopControl, Msg, Stmt, Type, Typechecker, UnaryOp,
    WabbitType,
};

const FUEL: u64 = 1_000_000;

fn lit(n: i32) -> Expr {
    Expr::Literal { value: WabbitType::from(n), id: 0 }
}

fn flit(x: f64) -> Expr {
    Expr::Literal { value: WabbitType::Float(x.to_bits()), id: 0 }
}

fn clit(c: char) -> Expr {
    Expr::Literal { value: WabbitType::from(c), id: 0 }
}

fn blit(b: bool) -> Expr {
    Expr::Literal { value: WabbitType::from(b), id: 0 }
}

fn var(name: &str) -> Expr {
    Expr::VarName { name: name.to_string(), id: 0 }
}

fn bin(lhs: Expr, op: BinaryOp, rhs: Expr) -> Expr {
    Expr::Binary { lhs: Box::new(lhs), op, rhs: Box::new(rhs), id: 0 }
}

fn logical(lhs: Expr, op: LogicalOp, rhs: Expr) -> Expr {
    Expr::Logical { lhs: Box::new(lhs), op, rhs: Box::new(rhs), id: 0 }
}

fn unary(op: UnaryOp, operand: Expr) -> Expr {
    Expr::Unary { op, operand: Box::new(operand), id: 0 }
}

fn group(e: Expr) -> Expr {
    Expr::Grouping { e: Box::new(e), id: 0 }
}

fn call(name: &str, params: Vec<Expr>) -> Expr {
    Expr::Call { name: name.to_string(), params, id: 0 }
}

fn convert(dtype: Type, params: Vec<Expr>) -> Expr {
    Expr::TypeConversion { dtype, params, id: 0 }
}

fn print_stmt(value: Expr) -> Stmt {
    Stmt::Print { value, id: 0 }
}

fn var_def(name: &str, maybe_type: Option<Type>, maybe_value: Option<Expr>) -> Stmt {
    Stmt::VarDef { name: name.to_string(), maybe_type, maybe_value, id: 0 }
}

fn const_def(name: &str, maybe_type: Option<Type>, value: Expr) -> Stmt {
    Stmt::ConstDef { name: name.to_string(), maybe_type, value, id: 0 }
}

fn assign(name: &str, value: Expr) -> Stmt {
    Stmt::Assign { name: name.to_string(), value, id: 0 }
}

fn block(statements: Vec<Stmt>) -> Stmt {
    Stmt::Block { statements, id: 0 }
}

fn func_def(name: &str, params: Vec<(&str, Type)>, ret: Type, body: Vec<Stmt>) -> Stmt {
    Stmt::FuncDef {
        def_name: name.to_string(),
        def_params: params.into_iter().map(|(n, t)| (n.to_string(), t)).collect(),
        return_type: ret,
        body: Box::new(block(body)),
        id: 0,
    }
}

fn if_stmt(condition: Expr, then_block: Vec<Stmt>, maybe_else: Option<Vec<Stmt>>) -> Stmt {
    Stmt::If {
        condition,
        then_block: Box::new(block(then_block)),
        maybe_else_block: maybe_else.map(|stmts| Box::new(block(stmts))),
        id: 0,
    }
}

fn while_stmt(condition: Expr, body: Vec<Stmt>) -> Stmt {
    Stmt::While { condition, body: Box::new(block(body)), id: 0 }
}

fn return_stmt(value: Expr) -> Stmt {
    Stmt::Return { value, id: 0 }
}

fn expect_io(program: Vec<Stmt>, expected: Vec<WabbitType>) {
    let ranges: HashMap<usize, (usize, usize)> = HashMap::new();
    let mut interpreter = Interpreter::new();
    interpreter.interpret(&program, &ranges, FUEL).unwrap();
    assert_eq!(interpreter.output, expected)
}

fn expect_run_err_args(program: Vec<Stmt>, expected_error: Msg, args: &[&str]) {
    let msg = SimpleCurlyFormat
        .format(expected_error.msg(), args)
        .expect("format error");
    let ranges: HashMap<usize, (usize, usize)> = HashMap::new();
    let mut interpreter = Interpreter::new();
    match interpreter.interpret(&program, &ranges, FUEL) {
        Err(e) => assert_eq!(e.label, format!("\x1b[31m{}\x1b[0m", msg)),
        Ok(()) => panic!(),
    }
}

fn expect_run_err(program: Vec<Stmt>, expected_error: Msg) {
    let ranges: HashMap<usize, (usize, usize)> = HashMap::new();
    let mut interpreter = Interpreter::new();
    match interpreter.interpret(&program, &ranges, FUEL) {
        Err(e) => assert_eq!(e.label, format!("\x1b[31m{}\x1b[0m", expected_error.msg())),
        Ok(()) => panic!(),
    }
}

#[test]
fn _00_intliteral() {
    let expected = vec![WabbitType::from(42)];
    expect_io(vec![print_stmt(lit(42))], expected)
}

#[test]
fn _01_intbinop() {
    let expected = vec![
        WabbitType::from(5),
        WabbitType::from(-1),
        WabbitType::from(6),
        WabbitType::from(2),
    ];
    let program = vec![
        print_stmt(bin(lit(2), BinaryOp::Plus, lit(3))),
        print_stmt(bin(lit(2), BinaryOp::Minus, lit(3))),
        print_stmt(bin(lit(2), BinaryOp::Times, lit(3))),
        print_stmt(bin(lit(5), BinaryOp::Divide, lit(2))),
    ];
    expect_io(program, expected)
}

#[test]
fn _02_intunaryop() {
    let expected = vec![WabbitType::from(-5), WabbitType::from(5)];
    let program = vec![
        print_stmt(unary(UnaryOp::Minus, lit(5))),
        print_stmt(unary(UnaryOp::Plus, lit(5))),
    ];
    expect_io(program, expected)
}

#[test]
fn _03_intvar() {
    let expected = vec![
        WabbitType::from(6),
        WabbitType::from(3),
        WabbitType::from(-1),
        WabbitType::from(12),
        WabbitType::from(3),
        WabbitType::from(1),
        WabbitType::from(-1),
        WabbitType::from(1),
        WabbitType::from(13),
    ];
    let program = vec![
        var_def("x", Some(Type::Int), Some(lit(6))),
        print_stmt(var("x")),
        assign("x", bin(var("x"), BinaryOp::Divide, lit(2))),
        print_stmt(var("x")),
        assign("x", bin(var("x"), BinaryOp::Minus, lit(4))),
        print_stmt(var("x")),
        assign("x", bin(group(bin(var("x"), BinaryOp::Plus, lit(7))), BinaryOp::Times, lit(2))),
        print_stmt(var("x")),
        assign("x", bin(var("x"), BinaryOp::Divide, lit(4))),
        print_stmt(var("x")),
        assign("x", bin(var("x"), BinaryOp::Minus, lit(2))),
        print_stmt(var("x")),
        assign("x", bin(var("x"), BinaryOp::Minus, lit(2))),
        print_stmt(var("x")),
        assign("x", bin(var("x"), BinaryOp::Plus, lit(2))),
        print_stmt(var("x")),
        assign("x", bin(var("x"), BinaryOp::Plus, lit(12))),
        print_stmt(var("x")),
    ];
    expect_io(program, expected)
}

#[test]
fn _08_intrel() {
    let expected = vec![WabbitType::from(true); 6];
    let program = vec![
        print_stmt(bin(lit(1), BinaryOp::Less, lit(2))),
        print_stmt(bin(lit(2), BinaryOp::LessEqual, lit(2))),
        print_stmt(bin(lit(3), BinaryOp::Greater, lit(2))),
        print_stmt(bin(lit(3), BinaryOp::GreaterEqual, lit(3))),
        print_stmt(bin(lit(1), BinaryOp::EqualEqual, lit(1))),
        print_stmt(bin(lit(1), BinaryOp::NotEqual, lit(2))),
    ];
    expect_io(program, expected)
}

#[test]
fn _10_bool() {
    let expected = vec![
        WabbitType::from(true),
        WabbitType::from(false),
        WabbitType::from(false),
        WabbitType::from(true),
        WabbitType::from(false),
        WabbitType::from(true),
        WabbitType::from(false),
    ];
    let program = vec![
        print_stmt(blit(true)),
        print_stmt(blit(false)),
        print_stmt(logical(blit(true), LogicalOp::LogicalAnd, blit(false))),
        print_stmt(logical(blit(true), LogicalOp::LogicalOr, blit(false))),
        print_stmt(unary(UnaryOp::LogicalNot, blit(true))),
        print_stmt(bin(blit(true), BinaryOp::EqualEqual, blit(true))),
        print_stmt(bin(blit(true), BinaryOp::NotEqual, blit(true))),
    ];
    expect_io(program, expected)
}

#[test]
fn _11_cond() {
    let expected = vec![WabbitType::from(3)];
    let program = vec![if_stmt(
        bin(lit(1), BinaryOp::Less, lit(2)),
        vec![print_stmt(lit(3))],
        Some(vec![print_stmt(lit(4))]),
    )];
    expect_io(program, expected)
}

#[test]
fn _12_loop_test() {
    let expected = vec![
        WabbitType::from(1),
        WabbitType::from(2),
        WabbitType::from(6),
        WabbitType::from(24),
        WabbitType::from(120),
        WabbitType::from(720),
        WabbitType::from(5040),
        WabbitType::from(40320),
        WabbitType::from(362880),
        WabbitType::from(3628800),
    ];
    let program = vec![
        var_def("n", Some(Type::Int), Some(lit(1))),
        var_def("fact", Some(Type::Int), Some(lit(1))),
        while_stmt(
            bin(var("n"), BinaryOp::Less, lit(11)),
            vec![
                assign("fact", bin(var("fact"), BinaryOp::Times, var("n"))),
                print_stmt(var("fact")),
                assign("n", bin(var("n"), BinaryOp::Plus, lit(1))),
            ],
        ),
    ];
    expect_io(program, expected)
}

#[test]
fn _13_charliteral() {
    let text = "hello\nworld\n";
    let expected: Vec<WabbitType> = text.chars().map(WabbitType::from).collect();
    let program: Vec<Stmt> = text.chars().map(|c| print_stmt(clit(c))).collect();
    expect_io(program, expected)
}

#[test]
fn _14_charrel() {
    let expected = vec![WabbitType::from(true); 6];
    let program = vec![
        print_stmt(bin(clit('a'), BinaryOp::Less, clit('b'))),
        print_stmt(bin(clit('b'), BinaryOp::LessEqual, clit('b'))),
        print_stmt(bin(clit('c'), BinaryOp::Greater, clit('b'))),
        print_stmt(bin(clit('c'), BinaryOp::GreaterEqual, clit('c'))),
        print_stmt(bin(clit('a'), BinaryOp::EqualEqual, clit('a'))),
        print_stmt(bin(clit('a'), BinaryOp::NotEqual, clit('b'))),
    ];
    expect_io(program, expected)
}

#[test]
fn _16_brk() {
    let expected = vec![
        WabbitType::from(1),
        WabbitType::from(2),
        WabbitType::from(3),
        WabbitType::from(4),
        WabbitType::from(6),
        WabbitType::from(7),
        WabbitType::from(8),
        WabbitType::from(9),
        WabbitType::from(10),
        WabbitType::from(11),
        WabbitType::from(-1),
    ];
    let program = vec![
        var_def("n", Some(Type::Int), Some(lit(0))),
        while_stmt(
            blit(true),
            vec![
                assign("n", bin(var("n"), BinaryOp::Plus, lit(1))),
                if_stmt(
                    bin(var("n"), BinaryOp::EqualEqual, lit(5)),
                    vec![Stmt::LoopControl { control: LoopControl::Continue, id: 0 }],
                    None,
                ),
                if_stmt(
                    bin(var("n"), BinaryOp::EqualEqual, lit(12)),
                    vec![Stmt::LoopControl { control: LoopControl::Break, id: 0 }],
                    None,
                ),
                print_stmt(var("n")),
            ],
        ),
        print_stmt(lit(-1)),
    ];
    expect_io(program, expected)
}

#[test]
fn _17_shortcircuit() {
    let expected = vec![WabbitType::from(true), WabbitType::from(false)];
    let program = vec![
        print_stmt(logical(blit(true), LogicalOp::LogicalOr, var("undefined"))),
        print_stmt(logical(blit(false), LogicalOp::LogicalAnd, var("undefined"))),
    ];
    expect_io(program, expected)
}

#[test]
fn _20_square() {
    let expected = (0..10).map(|i| WabbitType::from(i * i)).collect();
    let program = vec![
        var_def("i", Some(Type::Int), Some(lit(0))),
        while_stmt(
            bin(var("i"), BinaryOp::Less, lit(10)),
            vec![
                print_stmt(bin(var("i"), BinaryOp::Times, var("i"))),
                assign("i", bin(var("i"), BinaryOp::Plus, lit(1))),
            ],
        ),
    ];
    expect_io(program, expected)
}

#[test]
fn conversions_on_integers() {
    let expected = vec![
        WabbitType::from(99),
        WabbitType::from(1),
        WabbitType::from('A'),
        WabbitType::from(true),
        WabbitType::from(false),
        WabbitType::from(7),
    ];
    let program = vec![
        print_stmt(convert(Type::Int, vec![clit('c')])),
        print_stmt(convert(Type::Int, vec![blit(true)])),
        print_stmt(convert(Type::Char, vec![lit(65)])),
        print_stmt(convert(Type::Bool, vec![lit(1)])),
        print_stmt(convert(Type::Bool, vec![lit(2)])),
        print_stmt(convert(Type::Int, vec![lit(7)])),
    ];
    expect_io(program, expected)
}

#[test]
fn function_call_returns_value() {
    let expected = vec![WabbitType::from(42)];
    let program = vec![
        func_def(
            "plus_two",
            vec![("x", Type::Int)],
            Type::Int,
            vec![return_stmt(bin(var("x"), BinaryOp::Plus, lit(2)))],
        ),
        print_stmt(call("plus_two", vec![lit(40)])),
    ];
    expect_io(program, expected)
}

#[test]
fn return_propagates_through_loop() {
    let expected = vec![WabbitType::from(7)];
    let program = vec![
        func_def(
            "f",
            vec![],
            Type::Int,
            vec![while_stmt(blit(true), vec![return_stmt(lit(7))])],
        ),
        print_stmt(call("f", vec![])),
    ];
    expect_io(program, expected)
}

#[test]
fn constant_visible_inside_function() {
    let expected = vec![WabbitType::from(10)];
    let program = vec![
        const_def("k", None, lit(10)),
        func_def("f", vec![], Type::Int, vec![return_stmt(var("k"))]),
        print_stmt(call("f", vec![])),
    ];
    expect_io(program, expected)
}

#[test]
fn block_shadowing_is_local() {
    let expected = vec![WabbitType::from(2), WabbitType::from(1)];
    let program = vec![
        var_def("x", Some(Type::Int), Some(lit(1))),
        if_stmt(
            blit(true),
            vec![
                var_def("x", Some(Type::Int), Some(lit(2))),
                print_stmt(var("x")),
            ],
            None,
        ),
        print_stmt(var("x")),
    ];
    expect_io(program, expected)
}

#[test]
fn uninitialized_then_assigned() {
    let expected = vec![WabbitType::from(5)];
    let program = vec![
        var_def("x", Some(Type::Int), None),
        assign("x", lit(5)),
        print_stmt(var("x")),
    ];
    expect_io(program, expected)
}

#[test]
fn divide_by_zero_is_refused() {
    let program = vec![print_stmt(bin(lit(1), BinaryOp::Divide, lit(0)))];
    expect_run_err(program, Msg::DivByZero)
}

#[test]
fn integer_arithmetic_wraps() {
    let expected = vec![WabbitType::from(i32::MIN)];
    let program = vec![print_stmt(bin(lit(i32::MAX), BinaryOp::Plus, lit(1)))];
    expect_io(program, expected)
}

#[test]
fn step_limit_stops_endless_loop() {
    let program = vec![while_stmt(blit(true), vec![])];
    let ranges: HashMap<usize, (usize, usize)> = HashMap::new();
    let mut interpreter = Interpreter::new();
    match interpreter.interpret(&program, &ranges, 1000) {
        Err(e) => assert_eq!(e.label, format!("\x1b[31m{}\x1b[0m", Msg::StepLimit.msg())),
        Ok(()) => panic!(),
    }
}

#[test]
fn float_evaluation_is_refused() {
    let program = vec![print_stmt(bin(flit(1.5), BinaryOp::Plus, flit(2.5)))];
    expect_run_err(program, Msg::FloatUnsupported)
}

#[test]
fn float_values_pass_through_unharmed() {
    let expected = vec![WabbitType::Float(2.5f64.to_bits())];
    let program = vec![
        var_def("x", Some(Type::Float), Some(flit(2.5))),
        print_stmt(var("x")),
    ];
    expect_io(program, expected)
}

#[test]
fn global_variable_visible_inside_function() {
    // the call environment holds the parameter frame and the global frame,
    // so a global variable is reachable from inside a function body
    let expected = vec![WabbitType::from(1)];
    let program = vec![
        var_def("a", Some(Type::Int), Some(lit(1))),
        func_def("f", vec![], Type::Int, vec![return_stmt(var("a"))]),
        print_stmt(call("f", vec![])),
    ];
    expect_io(program, expected)
}

#[test]
fn interpreter_redeclaration_guards() {
    let program = vec![
        const_def("x", None, lit(1)),
        var_def("x", Some(Type::Int), Some(lit(2))),
    ];
    expect_run_err_args(program, Msg::RedeclareConst, &["x"]);
    let program = vec![
        var_def("x", Some(Type::Int), Some(lit(1))),
        func_def("x", vec![], Type::Int, vec![return_stmt(lit(0))]),
    ];
    expect_run_err_args(program, Msg::RedeclareVar, &["x"]);
    let program = vec![
        func_def("x", vec![], Type::Int, vec![return_stmt(lit(0))]),
        const_def("x", None, lit(1)),
    ];
    expect_run_err_args(program, Msg::RedeclareFunc, &["x"]);
}

#[test]
fn recursion_computes() {
    // sum(n) = n + sum(n - 1), sum(0) = 0
    let expected = vec![WabbitType::from(55)];
    let program = vec![
        func_def(
            "sum",
            vec![("n", Type::Int)],
            Type::Int,
            vec![
                if_stmt(
                    bin(var("n"), BinaryOp::EqualEqual, lit(0)),
                    vec![return_stmt(lit(0))],
                    None,
                ),
                return_stmt(bin(
                    var("n"),
                    BinaryOp::Plus,
                    call("sum", vec![bin(var("n"), BinaryOp::Minus, lit(1))]),
                )),
            ],
        ),
        print_stmt(call("sum", vec![lit(10)])),
    ];
    expect_io(program, expected)
}

#[test]
fn callee_does_not_see_caller_locals() {
    // f's `x` resolves to the global int at definition time; g's local bool
    // `x` must be invisible inside the call, so the program both typechecks
    // and runs
    let expected = vec![WabbitType::from(1)];
    let program = vec![
        var_def("x", Some(Type::Int), Some(lit(1))),
        func_def("f", vec![], Type::Int, vec![return_stmt(var("x"))]),
        func_def(
            "g",
            vec![],
            Type::Int,
            vec![
                var_def("x", Some(Type::Bool), Some(blit(true))),
                return_stmt(call("f", vec![])),
            ],
        ),
        print_stmt(call("g", vec![])),
    ];
    let ranges: HashMap<usize, (usize, usize)> = HashMap::new();
    let mut typechecker = Typechecker::new();
    assert!(typechecker.typecheck(&program, &ranges).is_ok());
    expect_io(program, expected)
}

#[test]
fn logical_not_operand_evaluated_once() {
    let expected = vec![WabbitType::from(9), WabbitType::from(false)];
    let program = vec![
        func_def(
            "noisy",
            vec![],
            Type::Bool,
            vec![print_stmt(lit(9)), return_stmt(blit(true))],
        ),
        print_stmt(unary(UnaryOp::LogicalNot, call("noisy", vec![]))),
    ];
    expect_io(program, expected)
}
