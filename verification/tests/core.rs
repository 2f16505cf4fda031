use std::collections::HashMap;
use wabbit::{
    Diagnostic, Environment, Msg, Type, VarStore, WabbitError, WabbitErrorReporter, WabbitType,
};

#[test]
fn type_names() {
    assert_eq!(Type::Int.name(), "int");
    assert_eq!(Type::Float.name(), "float");
    assert_eq!(Type::Bool.name(), "bool");
    assert_eq!(Type::Char.name(), "char");
}

#[test]
fn llvm_type_spellings() {
    assert_eq!(Type::Int.llvm_type(), "i32");
    assert_eq!(Type::Float.llvm_type(), "double");
    assert_eq!(Type::Bool.llvm_type(), "i1");
    assert_eq!(Type::Char.llvm_type(), "i8");
}

#[test]
fn global_init_spellings() {
    assert_eq!(Type::Int.global_init(), "0");
    assert_eq!(Type::Bool.global_init(), "0");
    assert_eq!(Type::Char.global_init(), "0");
    assert_eq!(Type::Float.global_init(), "0x0");
}

#[test]
fn dtype_of_values() {
    assert_eq!(WabbitType::from(1).dtype(), Type::Int);
    assert_eq!(WabbitType::from(true).dtype(), Type::Bool);
    assert_eq!(WabbitType::from('c').dtype(), Type::Char);
    assert_eq!(WabbitType::Float(1.5f64.to_bits()).dtype(), Type::Float);
    assert_eq!(WabbitType::TypeHolder(Type::Int).dtype(), Type::Int);
}

#[test]
fn clone_store_ignores_the_tag() {
    assert_eq!(VarStore::Init(Type::Int).clone_store(), Type::Int);
    assert_eq!(VarStore::UnInit(Type::Char).clone_store(), Type::Char);
}

#[test]
fn environment_define_and_get() {
    let mut env: Environment<Type> = Environment::new();
    assert!(env.in_global_scope());
    let name = "x".to_string();
    env.define_init(&name, Type::Int);
    assert!(matches!(env.get(&name), Some(VarStore::Init(Type::Int))));
    assert!(env.top_contains(&name));
    assert!(env.get(&"y".to_string()).is_none());
}

#[test]
fn environment_chain_lookup_and_shadowing() {
    let mut env: Environment<Type> = Environment::new();
    let name = "x".to_string();
    env.define_init(&name, Type::Int);
    env.enter_child();
    assert!(!env.in_global_scope());
    // the outer binding is visible, but not in the top frame
    assert!(matches!(env.get(&name), Some(VarStore::Init(Type::Int))));
    assert!(!env.top_contains(&name));
    // a shadowing definition wins until the frame is popped
    env.define_init(&name, Type::Bool);
    assert!(matches!(env.get(&name), Some(VarStore::Init(Type::Bool))));
    env.exit_child_unwrap();
    assert!(matches!(env.get(&name), Some(VarStore::Init(Type::Int))));
}

#[test]
fn environment_assign_updates_owning_frame() {
    let mut env: Environment<Type> = Environment::new();
    let name = "x".to_string();
    env.define_uninit(&name, Type::Int);
    env.enter_child();
    env.assign(&name, Type::Int);
    env.exit_child_unwrap();
    // the assignment reached the global frame that owns the binding
    assert!(matches!(env.get(&name), Some(VarStore::Init(Type::Int))));
}

#[test]
fn environment_assign_to_unbound_name_is_a_no_op() {
    let mut env: Environment<Type> = Environment::new();
    let name = "ghostly".to_string();
    env.assign(&name, Type::Int);
    assert!(env.get(&name).is_none());
}

#[test]
fn environment_exit_global_is_refused() {
    let mut env: Environment<Type> = Environment::new();
    assert!(env.exit_child().is_err());
    env.enter_child();
    assert!(env.exit_child().is_ok());
    assert!(env.exit_child().is_err());
}

#[test]
fn enter_child_fn_seeds_parameters() {
    let mut env: Environment<Type> = Environment::new();
    let params = vec![
        ("a".to_string(), VarStore::Init(Type::Int)),
        ("b".to_string(), VarStore::Init(Type::Char)),
    ];
    env.enter_child_fn(params);
    assert!(matches!(env.get(&"a".to_string()), Some(VarStore::Init(Type::Int))));
    assert!(matches!(env.get(&"b".to_string()), Some(VarStore::Init(Type::Char))));
}

#[test]
fn wabbit_error_paints_red() {
    let e = WabbitError::new("boom", (3, 9));
    assert_eq!(e.label, "\x1b[31mboom\x1b[0m");
    assert_eq!(e.range(), (3, 9));
}

#[test]
fn diagnostic_resolves_its_range() {
    let mut ranges: HashMap<usize, (usize, usize)> = HashMap::new();
    ranges.insert(7, (3, 9));
    let d = Diagnostic { kind: Msg::VarUndefined, id: 7, args: Vec::new() };
    let e = d.to_error(&ranges);
    assert_eq!(e.range(), (3, 9));
    assert_eq!(e.label, format!("\x1b[31m{}\x1b[0m", Msg::VarUndefined.msg()));
    let unknown = Diagnostic { kind: Msg::VarUndefined, id: 8, args: Vec::new() };
    assert_eq!(unknown.to_error(&ranges).range(), (0, 0));
}

#[test]
fn diagnostic_fills_template_holes() {
    let ranges: HashMap<usize, (usize, usize)> = HashMap::new();
    let d = Diagnostic {
        kind: Msg::RedeclareVar,
        id: 0,
        args: vec!["x".to_string()],
    };
    let e = d.to_error(&ranges);
    assert_eq!(e.label, "\x1b[31m'x' is previously declared as a variable\x1b[0m");
}

#[test]
fn message_templates() {
    assert_eq!(Msg::VarUndefined.msg(), "undefined variable");
    assert_eq!(Msg::DivByZero.msg(), "division by zero");
    assert_eq!(Msg::AltBranch.msg(), "some branches do not have a return value");
    assert_eq!(
        Msg::AssignRetype.msg(),
        "'{}' previously defined with type '{}', cannot assign a new value with type '{}'"
    );
}

#[test]
fn reporter_keeps_its_parts() {
    let errors = vec![WabbitError::new("bad", (0, 1))];
    let reporter = WabbitErrorReporter::new(
        errors,
        "program.wb".to_string(),
        "print 1;".to_string(),
        "Typechecking",
    );
    assert_eq!(reporter.borrow_errors().len(), 1);
    assert_eq!(reporter.borrow_path(), "program.wb");
    assert_eq!(reporter.borrow_source(), "print 1;");
    assert_eq!(reporter.borrow_title(), "Typechecking");
}
