//! The tree-walking evaluator.
//!
//! `eval` reduces a typed tree to a single literal, assuming the
//! well-typedness invariant that the checker establishes: under that
//! assumption the only runtime error a program can raise is division by
//! zero, and an operand of the wrong kind is statically unreachable.
//! Arithmetic follows standard two's-complement (wrapping) semantics.

use crate::analyzer::{lit_ty, well_typed, Type};
use crate::env::{env_map, lemma_env_map_push, lookup};
use crate::lexer::Literal;
use crate::parser::{ann, Expr};
use vstd::pervasive::unreached;
use vstd::prelude::*;
use vstd::string::StringExecFns;
use vstd::wrapping::i64_specs;

verus! {

/// A user-facing error reported during evaluation.
#[derive(Debug, PartialEq, Eq)]
pub enum RuntimeError {
    /// The value environment holds no binding for a variable.  This cannot
    /// happen when the environment is consistent with the one the tree was
    /// checked under.
    UndefinedVariable(String),
    /// A division met a zero divisor: the one runtime error a well-typed
    /// program can legitimately raise.
    DivisionByZero,
}

/// The value environment: name-to-value bindings, innermost last.
pub type Env = Vec<(String, Literal)>;

impl RuntimeError {
    /// The human-readable description of the error.
    pub open spec fn spec_message(self) -> Seq<char> {
        match self {
            RuntimeError::UndefinedVariable(n) => "Undefined variable `"@ + n@ + "`"@,
            RuntimeError::DivisionByZero => "Attempt to divide by zero"@,
        }
    }

    /// Render the error as its human-readable message.
    pub fn message(&self) -> (r: String)
        ensures
            r@ == self.spec_message(),
    {
        match self {
            RuntimeError::UndefinedVariable(n) => {
                let mut s = String::from_str("Undefined variable `");
                s.append(n.as_str());
                s.append("`");
                s
            },
            RuntimeError::DivisionByZero => String::from_str("Attempt to divide by zero"),
        }
    }
}

/// Two's-complement negation of a 64-bit integer.
pub open spec fn neg_wrap(n: i64) -> i64 {
    if n == i64::MIN {
        i64::MIN
    } else {
        (-n) as i64
    }
}

/// Two's-complement truncating division of 64-bit integers: rounds toward
/// zero, and the one overflowing case wraps back to the minimum.
pub open spec fn div_wrap(a: i64, b: i64) -> i64
    recommends
        b != 0,
{
    match a.checked_div(b) {
        Option::Some(q) => q,
        Option::None => i64::MIN,
    }
}

/// The type environment that a value environment induces: each bound value
/// stands for its own static type.
pub open spec fn ty_env_of(m: Map<Seq<char>, Literal>) -> Map<Seq<char>, Type> {
    m.map_values(|l: Literal| lit_ty(l))
}

/// Inserting a value binding induces inserting its type binding.
pub proof fn lemma_ty_env_of_insert(m: Map<Seq<char>, Literal>, k: Seq<char>, l: Literal)
    ensures
        ty_env_of(m.insert(k, l)) == ty_env_of(m).insert(k, lit_ty(l)),
{
    assert(ty_env_of(m.insert(k, l)) =~= ty_env_of(m).insert(k, lit_ty(l)));
}

/// The outcome of evaluating a tree under a value environment: a literal,
/// or the first runtime error of a left-to-right, outside-in walk.  The
/// annotations play no part, so the outcome is defined for a tree in either
/// phase.  An operand literal of the wrong kind is an internal invariant
/// violation and left unconstrained: it is unreachable for well-typed
/// trees.
pub open spec fn eval_res<Ty>(e: Expr<Ty>, env: Map<Seq<char>, Literal>) -> Result<
    Literal,
    RuntimeError,
>
    decreases e,
{
    match e {
        Expr::Lit(l, _) => Result::Ok(l),
        Expr::Var(n, _) => if env.dom().contains(n@) {
            Result::Ok(env[n@])
        } else {
            Result::Err(RuntimeError::UndefinedVariable(n))
        },
        Expr::Neg(inner, _) => match eval_res(*inner, env) {
            Result::Err(er) => Result::Err(er),
            Result::Ok(Literal::Int(n)) => Result::Ok(Literal::Int(neg_wrap(n))),
            Result::Ok(_) => arbitrary(),
        },
        Expr::Add(l, r, _) => match (eval_res(*l, env), eval_res(*r, env)) {
            (Result::Err(er), _) => Result::Err(er),
            (Result::Ok(_), Result::Err(er)) => Result::Err(er),
            (Result::Ok(Literal::Int(a)), Result::Ok(Literal::Int(b))) => Result::Ok(
                Literal::Int(i64_specs::wrapping_add(a, b)),
            ),
            _ => arbitrary(),
        },
        Expr::Sub(l, r, _) => match (eval_res(*l, env), eval_res(*r, env)) {
            (Result::Err(er), _) => Result::Err(er),
            (Result::Ok(_), Result::Err(er)) => Result::Err(er),
            (Result::Ok(Literal::Int(a)), Result::Ok(Literal::Int(b))) => Result::Ok(
                Literal::Int(i64_specs::wrapping_sub(a, b)),
            ),
            _ => arbitrary(),
        },
        Expr::Mul(l, r, _) => match (eval_res(*l, env), eval_res(*r, env)) {
            (Result::Err(er), _) => Result::Err(er),
            (Result::Ok(_), Result::Err(er)) => Result::Err(er),
            (Result::Ok(Literal::Int(a)), Result::Ok(Literal::Int(b))) => Result::Ok(
                Literal::Int(i64_specs::wrapping_mul(a, b)),
            ),
            _ => arbitrary(),
        },
        Expr::Div(l, r, _) => match (eval_res(*l, env), eval_res(*r, env)) {
            (Result::Err(er), _) => Result::Err(er),
            (Result::Ok(_), Result::Err(er)) => Result::Err(er),
            (Result::Ok(Literal::Int(a)), Result::Ok(Literal::Int(b))) => if b == 0 {
                Result::Err(RuntimeError::DivisionByZero)
            } else {
                Result::Ok(Literal::Int(div_wrap(a, b)))
            },
            _ => arbitrary(),
        },
        Expr::Let { name, value, then, .. } => match eval_res(*value, env) {
            Result::Err(er) => Result::Err(er),
            Result::Ok(v) => eval_res(*then, env.insert(name@, v)),
        },
    }
}

/// What an evaluation result must satisfy for a well-typed tree `e` under
/// environment map `m`: the outcome `eval_res` gives, a value of the root's
/// kind on success, and division by zero as the only possible error.
pub open spec fn eval_post<Ty>(e: Expr<Ty>, m: Map<Seq<char>, Literal>, ty: Type, r: Result<
    Literal,
    RuntimeError,
>) -> bool {
    match r {
        Result::Ok(l) => eval_res(e, m) == Result::Ok::<Literal, RuntimeError>(l) && lit_ty(l)
            == ty,
        Result::Err(er) => eval_res(e, m) == Result::Err::<Literal, RuntimeError>(er) && er
            is DivisionByZero,
    }
}

impl Expr<Type> {
    /// Evaluate `self` under `env`.  The environment must be consistent
    /// with the well-typedness of the tree; the result is then exactly what
    /// `eval_res` gives: a literal of the root annotation's kind, or
    /// division by zero.  The environment is restored to its pre-call
    /// state.
    pub fn eval(&self, env: &mut Env) -> (r: Result<Literal, RuntimeError>)
        requires
            well_typed(*self, ty_env_of(env_map(old(env)@))),
        ensures
            final(env)@ == old(env)@,
            eval_post(*self, env_map(old(env)@), ann(*self), r),
        decreases *self, 1int,
    {
        match self {
            Expr::Lit(lit, _) => Result::Ok(lit.clone()),
            Expr::Var(name, _) => match lookup(env, name) {
                Option::Some(i) => Result::Ok(env[i].1.clone()),
                Option::None => Result::Err(RuntimeError::UndefinedVariable(name.clone())),
            },
            Expr::Neg(_, _) => eval_neg(self, env),
            Expr::Add(_, _, _) => eval_add(self, env),
            Expr::Sub(_, _, _) => eval_sub(self, env),
            Expr::Mul(_, _, _) => eval_mul(self, env),
            Expr::Div(_, _, _) => eval_div(self, env),
            Expr::Let { .. } => eval_let(self, env),
        }
    }
}

/// Consistency of a value environment with a type environment: every name
/// the type environment binds is bound to a value of that type.
pub open spec fn env_compat(venv: Map<Seq<char>, Literal>, tenv: Map<Seq<char>, Type>) -> bool {
    forall|n: Seq<char>| #[trigger]
        tenv.dom().contains(n) ==> venv.dom().contains(n) && lit_ty(venv[n]) == tenv[n]
}

/// Type soundness: evaluating a well-typed tree under any consistent value
/// environment yields a literal whose kind matches the root annotation, or
/// exactly `DivisionByZero` — never an undefined variable, and never an
/// operand of the wrong kind.
pub proof fn lemma_type_soundness(
    t: Expr<Type>,
    tenv: Map<Seq<char>, Type>,
    venv: Map<Seq<char>, Literal>,
)
    requires
        well_typed(t, tenv),
        env_compat(venv, tenv),
    ensures
        match eval_res(t, venv) {
            Result::Ok(l) => lit_ty(l) == ann(t),
            Result::Err(er) => er is DivisionByZero,
        },
    decreases t,
{
    match t {
        Expr::Lit(_, _) => {},
        Expr::Var(_, _) => {},
        Expr::Neg(inner, _) => {
            lemma_type_soundness(*inner, tenv, venv);
        },
        Expr::Add(l, r, _) => {
            lemma_type_soundness(*l, tenv, venv);
            lemma_type_soundness(*r, tenv, venv);
        },
        Expr::Sub(l, r, _) => {
            lemma_type_soundness(*l, tenv, venv);
            lemma_type_soundness(*r, tenv, venv);
        },
        Expr::Mul(l, r, _) => {
            lemma_type_soundness(*l, tenv, venv);
            lemma_type_soundness(*r, tenv, venv);
        },
        Expr::Div(l, r, _) => {
            lemma_type_soundness(*l, tenv, venv);
            lemma_type_soundness(*r, tenv, venv);
        },
        Expr::Let { name, value, then, .. } => {
            lemma_type_soundness(*value, tenv, venv);
            match eval_res(*value, venv) {
                Result::Ok(v) => {
                    assert(env_compat(venv.insert(name@, v), tenv.insert(name@, ann(*value))));
                    lemma_type_soundness(
                        *then,
                        tenv.insert(name@, ann(*value)),
                        venv.insert(name@, v),
                    );
                },
                Result::Err(_) => {},
            }
        },
    }
}

/// Evaluation ignores annotations: a typed tree evaluates exactly as the
/// untyped tree it was built from.
pub proof fn lemma_eval_res_erases(t: Expr<Type>, u: Expr<()>, env: Map<Seq<char>, Literal>)
    requires
        crate::analyzer::erases_to(t, u),
    ensures
        eval_res(t, env) == eval_res(u, env),
    decreases t,
{
    match t {
        Expr::Lit(_, _) => {},
        Expr::Var(_, _) => {},
        Expr::Neg(inner, _) => match u {
            Expr::Neg(inner2, _) => {
                lemma_eval_res_erases(*inner, *inner2, env);
            },
            _ => {},
        },
        Expr::Add(l, r, _) => match u {
            Expr::Add(l2, r2, _) => {
                lemma_eval_res_erases(*l, *l2, env);
                lemma_eval_res_erases(*r, *r2, env);
            },
            _ => {},
        },
        Expr::Sub(l, r, _) => match u {
            Expr::Sub(l2, r2, _) => {
                lemma_eval_res_erases(*l, *l2, env);
                lemma_eval_res_erases(*r, *r2, env);
            },
            _ => {},
        },
        Expr::Mul(l, r, _) => match u {
            Expr::Mul(l2, r2, _) => {
                lemma_eval_res_erases(*l, *l2, env);
                lemma_eval_res_erases(*r, *r2, env);
            },
            _ => {},
        },
        Expr::Div(l, r, _) => match u {
            Expr::Div(l2, r2, _) => {
                lemma_eval_res_erases(*l, *l2, env);
                lemma_eval_res_erases(*r, *r2, env);
            },
            _ => {},
        },
        Expr::Let { name, value, then, .. } => match u {
            Expr::Let { name: name2, value: value2, then: then2, .. } => {
                lemma_eval_res_erases(*value, *value2, env);
                match eval_res(*value, env) {
                    Result::Ok(v) => {
                        lemma_eval_res_erases(*then, *then2, env.insert(name@, v));
                    },
                    Result::Err(_) => {},
                }
            },
            _ => {},
        },
    }
}

/// The `Neg` case of the evaluator: the operand is `Int` by well-typedness.
fn eval_neg(e: &Expr<Type>, env: &mut Env) -> (r: Result<Literal, RuntimeError>)
    requires
        *e is Neg,
        well_typed(*e, ty_env_of(env_map(old(env)@))),
    ensures
        final(env)@ == old(env)@,
        eval_post(*e, env_map(old(env)@), ann(*e), r),
    decreases *e, 0int,
{
    match e {
        Expr::Neg(inner, _) => match inner.eval(env) {
            Result::Err(er) => Result::Err(er),
            Result::Ok(l) => match l {
                Literal::Int(n) => Result::Ok(
                    Literal::Int(
                        if n == i64::MIN {
                            i64::MIN
                        } else {
                            -n
                        },
                    ),
                ),
                Literal::String(_) => unreached(),
            },
        },
        _ => unreached(),
    }
}

/// The `Add` case of the evaluator: both operands are `Int` by
/// well-typedness; the sum wraps.
fn eval_add(e: &Expr<Type>, env: &mut Env) -> (r: Result<Literal, RuntimeError>)
    requires
        *e is Add,
        well_typed(*e, ty_env_of(env_map(old(env)@))),
    ensures
        final(env)@ == old(env)@,
        eval_post(*e, env_map(old(env)@), ann(*e), r),
    decreases *e, 0int,
{
    match e {
        Expr::Add(lhs, rhs, _) => match lhs.eval(env) {
            Result::Err(er) => Result::Err(er),
            Result::Ok(lv) => match rhs.eval(env) {
                Result::Err(er) => Result::Err(er),
                Result::Ok(rv) => match (lv, rv) {
                    (Literal::Int(a), Literal::Int(b)) => Result::Ok(
                        Literal::Int(a.wrapping_add(b)),
                    ),
                    _ => unreached(),
                },
            },
        },
        _ => unreached(),
    }
}

/// The `Sub` case of the evaluator: both operands are `Int` by
/// well-typedness; the difference wraps.
fn eval_sub(e: &Expr<Type>, env: &mut Env) -> (r: Result<Literal, RuntimeError>)
    requires
        *e is Sub,
        well_typed(*e, ty_env_of(env_map(old(env)@))),
    ensures
        final(env)@ == old(env)@,
        eval_post(*e, env_map(old(env)@), ann(*e), r),
    decreases *e, 0int,
{
    match e {
        Expr::Sub(lhs, rhs, _) => match lhs.eval(env) {
            Result::Err(er) => Result::Err(er),
            Result::Ok(lv) => match rhs.eval(env) {
                Result::Err(er) => Result::Err(er),
                Result::Ok(rv) => match (lv, rv) {
                    (Literal::Int(a), Literal::Int(b)) => Result::Ok(
                        Literal::Int(a.wrapping_sub(b)),
                    ),
                    _ => unreached(),
                },
            },
        },
        _ => unreached(),
    }
}

/// The `Mul` case of the evaluator: both operands are `Int` by
/// well-typedness; the product wraps.
fn eval_mul(e: &Expr<Type>, env: &mut Env) -> (r: Result<Literal, RuntimeError>)
    requires
        *e is Mul,
        well_typed(*e, ty_env_of(env_map(old(env)@))),
    ensures
        final(env)@ == old(env)@,
        eval_post(*e, env_map(old(env)@), ann(*e), r),
    decreases *e, 0int,
{
    match e {
        Expr::Mul(lhs, rhs, _) => match lhs.eval(env) {
            Result::Err(er) => Result::Err(er),
            Result::Ok(lv) => match rhs.eval(env) {
                Result::Err(er) => Result::Err(er),
                Result::Ok(rv) => match (lv, rv) {
                    (Literal::Int(a), Literal::Int(b)) => Result::Ok(
                        Literal::Int(a.wrapping_mul(b)),
                    ),
                    _ => unreached(),
                },
            },
        },
        _ => unreached(),
    }
}

/// The `Div` case of the evaluator: both operands are `Int` by
/// well-typedness.  A zero divisor raises `DivisionByZero`; otherwise the
/// division truncates, and its one overflowing case wraps.
fn eval_div(e: &Expr<Type>, env: &mut Env) -> (r: Result<Literal, RuntimeError>)
    requires
        *e is Div,
        well_typed(*e, ty_env_of(env_map(old(env)@))),
    ensures
        final(env)@ == old(env)@,
        eval_post(*e, env_map(old(env)@), ann(*e), r),
    decreases *e, 0int,
{
    match e {
        Expr::Div(lhs, rhs, _) => match lhs.eval(env) {
            Result::Err(er) => Result::Err(er),
            Result::Ok(lv) => match rhs.eval(env) {
                Result::Err(er) => Result::Err(er),
                Result::Ok(rv) => match (lv, rv) {
                    (Literal::Int(a), Literal::Int(b)) => if b == 0 {
                        Result::Err(RuntimeError::DivisionByZero)
                    } else {
                        match a.checked_div(b) {
                            Option::Some(q) => Result::Ok(Literal::Int(q)),
                            Option::None => Result::Ok(Literal::Int(i64::MIN)),
                        }
                    },
                    _ => unreached(),
                },
            },
        },
        _ => unreached(),
    }
}

/// The `Let` case of the evaluator: bind the value over the body, then
/// restore the environment.
fn eval_let(e: &Expr<Type>, env: &mut Env) -> (r: Result<Literal, RuntimeError>)
    requires
        *e is Let,
        well_typed(*e, ty_env_of(env_map(old(env)@))),
    ensures
        final(env)@ == old(env)@,
        eval_post(*e, env_map(old(env)@), ann(*e), r),
    decreases *e, 0int,
{
    match e {
        Expr::Let { name, value, then, ty: _ } => match value.eval(env) {
            Result::Err(er) => Result::Err(er),
            Result::Ok(v) => {
                let ghost vg = v;
                proof {
                    lemma_env_map_push(env@, *name, vg);
                    lemma_ty_env_of_insert(env_map(env@), name@, vg);
                }
                env.push((name.clone(), v));
                let r2 = then.eval(env);
                let _ = env.pop();
                proof {
                    assert(old(env)@.push((*name, vg)).drop_last() =~= old(env)@);
                }
                r2
            },
        },
        _ => unreached(),
    }
}

} // verus!
