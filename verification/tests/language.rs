//! End-to-end behaviour of the language: checking, evaluation, scoping,
//! arithmetic semantics, and the errors of both passes.

use minilang::analyzer::{Type, TypeError};
use minilang::interpreter::RuntimeError;
use minilang::lexer::Literal;
use minilang::parser::Expr;
use minilang::{run, RunError};

fn int_e(n: i64) -> Expr<()> {
    Expr::Lit(Literal::Int(n), ())
}

fn str_e(s: &str) -> Expr<()> {
    Expr::Lit(Literal::String(s.to_string()), ())
}

fn var_e(n: &str) -> Expr<()> {
    Expr::Var(n.to_string(), ())
}

fn neg_e(e: Expr<()>) -> Expr<()> {
    Expr::Neg(Box::new(e), ())
}

fn add_e(l: Expr<()>, r: Expr<()>) -> Expr<()> {
    Expr::Add(Box::new(l), Box::new(r), ())
}

fn sub_e(l: Expr<()>, r: Expr<()>) -> Expr<()> {
    Expr::Sub(Box::new(l), Box::new(r), ())
}

fn mul_e(l: Expr<()>, r: Expr<()>) -> Expr<()> {
    Expr::Mul(Box::new(l), Box::new(r), ())
}

fn div_e(l: Expr<()>, r: Expr<()>) -> Expr<()> {
    Expr::Div(Box::new(l), Box::new(r), ())
}

fn let_e(name: &str, value: Expr<()>, then: Expr<()>) -> Expr<()> {
    Expr::Let { name: name.to_string(), value: Box::new(value), then: Box::new(then), ty: () }
}

fn check(e: &Expr<()>) -> Result<Expr<Type>, TypeError> {
    e.analyze(&mut Vec::new())
}

fn evaluate(t: &Expr<Type>) -> Result<Literal, RuntimeError> {
    t.eval(&mut Vec::new())
}

#[test]
fn literal_int_checks_and_evaluates() {
    let e = int_e(42);
    let t = check(&e).unwrap();
    assert_eq!(*t.ty(), Type::Int);
    assert_eq!(evaluate(&t), Ok(Literal::Int(42)));
}

#[test]
fn literal_string_checks_and_evaluates() {
    let e = str_e("hi");
    let t = check(&e).unwrap();
    assert_eq!(*t.ty(), Type::String);
    assert_eq!(evaluate(&t), Ok(Literal::String("hi".to_string())));
}

#[test]
fn inner_binding_shadows_outer() {
    // let x = 1 in let x = 2 in x
    let e = let_e("x", int_e(1), let_e("x", int_e(2), var_e("x")));
    let t = check(&e).unwrap();
    assert_eq!(*t.ty(), Type::Int);
    assert_eq!(evaluate(&t), Ok(Literal::Int(2)));
}

#[test]
fn outer_binding_restored_after_inner_let() {
    // let x = 1 in (let x = 2 in x) + x: the trailing x sees the outer binding
    let e = let_e("x", int_e(1), add_e(let_e("x", int_e(2), var_e("x")), var_e("x")));
    let t = check(&e).unwrap();
    assert_eq!(evaluate(&t), Ok(Literal::Int(3)));
}

#[test]
fn string_plus_int_is_rejected() {
    // "abc" + 1 names the operator and both operand types, and never evaluates
    let e = add_e(str_e("abc"), int_e(1));
    assert_eq!(
        check(&e),
        Err(TypeError::TypeMismatch { op: '+', left: Type::String, right: Type::Int })
    );
}

#[test]
fn negating_a_string_is_rejected() {
    let e = neg_e(str_e("abc"));
    assert_eq!(check(&e), Err(TypeError::TypeMismatchUnary { op: '-', operand: Type::String }));
}

#[test]
fn division_by_zero_checks_but_fails_at_runtime() {
    // let x = 0 in 5 / x
    let e = let_e("x", int_e(0), div_e(int_e(5), var_e("x")));
    let t = check(&e).unwrap();
    assert_eq!(*t.ty(), Type::Int);
    assert_eq!(evaluate(&t), Err(RuntimeError::DivisionByZero));
}

#[test]
fn undefined_variable_is_rejected() {
    // x + 1 with no enclosing let
    let e = add_e(var_e("x"), int_e(1));
    assert_eq!(check(&e), Err(TypeError::UndefinedVariable("x".to_string())));
}

#[test]
fn first_error_of_left_to_right_walk_wins() {
    // y + ("a" + 1): the undefined left operand is reported, not the mismatch
    let e = add_e(var_e("y"), add_e(str_e("a"), int_e(1)));
    assert_eq!(check(&e), Err(TypeError::UndefinedVariable("y".to_string())));
}

#[test]
fn let_value_is_checked_under_outer_env() {
    // let x = x in x: the bound name is not in scope in its own value
    let e = let_e("x", var_e("x"), var_e("x"));
    assert_eq!(check(&e), Err(TypeError::UndefinedVariable("x".to_string())));
}

#[test]
fn string_binding_has_string_type() {
    let e = let_e("s", str_e("a"), var_e("s"));
    let t = check(&e).unwrap();
    assert_eq!(*t.ty(), Type::String);
    assert_eq!(evaluate(&t), Ok(Literal::String("a".to_string())));
}

#[test]
fn analyze_restores_caller_environment() {
    let mut env = vec![("z".to_string(), Type::Int)];
    let e = let_e("x", int_e(1), add_e(var_e("x"), var_e("z")));
    let t = e.analyze(&mut env).unwrap();
    assert_eq!(env, vec![("z".to_string(), Type::Int)]);
    let mut venv = vec![("z".to_string(), Literal::Int(10))];
    assert_eq!(t.eval(&mut venv), Ok(Literal::Int(11)));
    assert_eq!(venv, vec![("z".to_string(), Literal::Int(10))]);
}

#[test]
fn addition_wraps() {
    let e = add_e(int_e(i64::MAX), int_e(1));
    let t = check(&e).unwrap();
    assert_eq!(evaluate(&t), Ok(Literal::Int(i64::MIN)));
}

#[test]
fn subtraction_wraps() {
    let e = sub_e(int_e(i64::MIN), int_e(1));
    let t = check(&e).unwrap();
    assert_eq!(evaluate(&t), Ok(Literal::Int(i64::MAX)));
}

#[test]
fn multiplication_wraps() {
    let e = mul_e(int_e(i64::MAX), int_e(2));
    let t = check(&e).unwrap();
    assert_eq!(evaluate(&t), Ok(Literal::Int(i64::MAX.wrapping_mul(2))));
}

#[test]
fn negation_of_minimum_wraps() {
    let e = neg_e(int_e(i64::MIN));
    let t = check(&e).unwrap();
    assert_eq!(evaluate(&t), Ok(Literal::Int(i64::MIN)));
}

#[test]
fn division_truncates_toward_zero() {
    let t = check(&div_e(int_e(7), int_e(2))).unwrap();
    assert_eq!(evaluate(&t), Ok(Literal::Int(3)));
    let t = check(&div_e(neg_e(int_e(7)), int_e(2))).unwrap();
    assert_eq!(evaluate(&t), Ok(Literal::Int(-3)));
}

#[test]
fn overflowing_division_wraps() {
    let e = div_e(int_e(i64::MIN), neg_e(int_e(1)));
    let t = check(&e).unwrap();
    assert_eq!(evaluate(&t), Ok(Literal::Int(i64::MIN)));
}

#[test]
fn double_negation_cancels() {
    let e = neg_e(neg_e(int_e(3)));
    let t = check(&e).unwrap();
    assert_eq!(evaluate(&t), Ok(Literal::Int(3)));
}

#[test]
fn eval_reports_missing_binding() {
    // a tree checked under a binding, then evaluated without it
    let e = var_e("w");
    let mut tenv = vec![("w".to_string(), Type::Int)];
    let t = e.analyze(&mut tenv).unwrap();
    let mut venv: Vec<(String, Literal)> = Vec::new();
    assert_eq!(
        t.eval(&mut venv),
        Err(RuntimeError::UndefinedVariable("w".to_string()))
    );
}

#[test]
fn type_error_messages_read_like_prose() {
    let undef = check(&var_e("x")).unwrap_err();
    assert_eq!(undef.message(), "Undefined variable `x`");
    let unary = check(&neg_e(str_e("a"))).unwrap_err();
    assert_eq!(unary.message(), "Cannot apply unary operator `-` to type `String`");
    let binary = check(&mul_e(int_e(1), str_e("a"))).unwrap_err();
    assert_eq!(
        binary.message(),
        "Cannot apply binary operator `*` to types `Int` and `String`"
    );
}

#[test]
fn runtime_error_messages_read_like_prose() {
    let t = check(&div_e(int_e(1), int_e(0))).unwrap();
    let err = evaluate(&t).unwrap_err();
    assert_eq!(err.message(), "Attempt to divide by zero");
    assert_eq!(
        RuntimeError::UndefinedVariable("y".to_string()).message(),
        "Undefined variable `y`"
    );
}

#[test]
fn run_checks_then_evaluates() {
    let e = let_e("x", int_e(5), let_e("y", int_e(10), add_e(var_e("x"), var_e("y"))));
    assert_eq!(run(&e), Ok(Literal::Int(15)));
}

#[test]
fn run_reports_check_error_without_evaluating() {
    let e = add_e(str_e("abc"), int_e(1));
    assert_eq!(
        run(&e),
        Err(RunError::Check(TypeError::TypeMismatch {
            op: '+',
            left: Type::String,
            right: Type::Int
        }))
    );
}

#[test]
fn run_reports_division_by_zero() {
    let e = let_e("x", int_e(0), div_e(int_e(5), var_e("x")));
    assert_eq!(run(&e), Err(RunError::Eval(RuntimeError::DivisionByZero)));
}
