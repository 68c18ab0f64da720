//! The static type checker.
//!
//! `analyze` maps an untyped tree to a typed tree, rejecting ill-typed
//! programs before any evaluation is attempted.  Its contract pins the
//! outcome to `check_res`, the typing rules written as a specification, and
//! states that a successful result is a well-typed copy of the input.

use crate::env::{env_map, lemma_env_map_push, lookup};
use crate::lexer::Literal;
use crate::parser::{ann, Expr};
use vstd::pervasive::unreached;
use vstd::prelude::*;
use vstd::string::StringExecFns;

verus! {

/// A concrete static type of the language.
#[derive(Clone, Copy, Debug, PartialEq, Eq, Structural)]
pub enum Type {
    Int,
    String,
}

/// The type environment: name-to-type bindings, innermost last.
pub type Env = Vec<(String, Type)>;

/// A user-facing error reported by the type checker.
#[derive(Debug, PartialEq, Eq)]
pub enum TypeError {
    /// A variable occurred that no enclosing `let` binds.
    UndefinedVariable(String),
    /// A unary operator was applied to an operand of the wrong type.
    TypeMismatchUnary { op: char, operand: Type },
    /// A binary operator was applied to operands of the wrong types.
    TypeMismatch { op: char, left: Type, right: Type },
}

/// The printed name of a type.
pub open spec fn ty_name(t: Type) -> Seq<char> {
    match t {
        Type::Int => "Int"@,
        Type::String => "String"@,
    }
}

/// The printed symbol of an operator: one of the four arithmetic symbols.
pub open spec fn op_symbol(op: char) -> Seq<char> {
    if op == '+' {
        "+"@
    } else if op == '-' {
        "-"@
    } else if op == '*' {
        "*"@
    } else {
        "/"@
    }
}

impl TypeError {
    /// The human-readable description of the error: the offending
    /// construct, the actual type or types, and for an undefined variable
    /// its name.
    pub open spec fn spec_message(self) -> Seq<char> {
        match self {
            TypeError::UndefinedVariable(n) => "Undefined variable `"@ + n@ + "`"@,
            TypeError::TypeMismatchUnary { op, operand } => "Cannot apply unary operator `"@
                + op_symbol(op) + "` to type `"@ + ty_name(operand) + "`"@,
            TypeError::TypeMismatch { op, left, right } => "Cannot apply binary operator `"@
                + op_symbol(op) + "` to types `"@ + ty_name(left) + "` and `"@ + ty_name(right)
                + "`"@,
        }
    }

    /// Render the error as its human-readable message.
    pub fn message(&self) -> (r: String)
        ensures
            r@ == self.spec_message(),
    {
        match self {
            TypeError::UndefinedVariable(n) => {
                let mut s = String::from_str("Undefined variable `");
                s.append(n.as_str());
                s.append("`");
                s
            },
            TypeError::TypeMismatchUnary { op, operand } => {
                let mut s = String::from_str("Cannot apply unary operator `");
                s.append(op_text(*op));
                s.append("` to type `");
                s.append(ty_text(*operand));
                s.append("`");
                s
            },
            TypeError::TypeMismatch { op, left, right } => {
                let mut s = String::from_str("Cannot apply binary operator `");
                s.append(op_text(*op));
                s.append("` to types `");
                s.append(ty_text(*left));
                s.append("` and `");
                s.append(ty_text(*right));
                s.append("`");
                s
            },
        }
    }
}

/// The printed name of a type, as text.
fn ty_text(t: Type) -> (r: &'static str)
    ensures
        r@ == ty_name(t),
{
    match t {
        Type::Int => "Int",
        Type::String => "String",
    }
}

/// The printed symbol of an operator, as text.
fn op_text(op: char) -> (r: &'static str)
    ensures
        r@ == op_symbol(op),
{
    if op == '+' {
        "+"
    } else if op == '-' {
        "-"
    } else if op == '*' {
        "*"
    } else {
        "/"
    }
}

/// The static type of a literal.
pub open spec fn lit_ty(l: Literal) -> Type {
    match l {
        Literal::Int(_) => Type::Int,
        Literal::String(_) => Type::String,
    }
}

/// Well-typedness of an annotated tree under a type environment: every
/// node's annotation is the type that the typing rules assign to it.
pub open spec fn well_typed(e: Expr<Type>, env: Map<Seq<char>, Type>) -> bool
    decreases e,
{
    match e {
        Expr::Lit(l, ty) => ty == lit_ty(l),
        Expr::Var(n, ty) => env.dom().contains(n@) && env[n@] == ty,
        Expr::Neg(inner, ty) => well_typed(*inner, env) && ann(*inner) == Type::Int && ty
            == Type::Int,
        Expr::Add(l, r, ty) => well_typed(*l, env) && well_typed(*r, env) && ann(*l) == Type::Int
            && ann(*r) == Type::Int && ty == Type::Int,
        Expr::Sub(l, r, ty) => well_typed(*l, env) && well_typed(*r, env) && ann(*l) == Type::Int
            && ann(*r) == Type::Int && ty == Type::Int,
        Expr::Mul(l, r, ty) => well_typed(*l, env) && well_typed(*r, env) && ann(*l) == Type::Int
            && ann(*r) == Type::Int && ty == Type::Int,
        Expr::Div(l, r, ty) => well_typed(*l, env) && well_typed(*r, env) && ann(*l) == Type::Int
            && ann(*r) == Type::Int && ty == Type::Int,
        Expr::Let { name, value, then, ty } => well_typed(*value, env) && well_typed(
            *then,
            env.insert(name@, ann(*value)),
        ) && ty == ann(*then),
    }
}

/// Combine the checked operand types of a binary arithmetic operator:
/// the first operand error wins, then both operands must be `Int`.
pub open spec fn check_bin(op: char, lr: Result<Type, TypeError>, rr: Result<Type, TypeError>) -> Result<
    Type,
    TypeError,
> {
    match lr {
        Result::Err(er) => Result::Err(er),
        Result::Ok(lt) => match rr {
            Result::Err(er) => Result::Err(er),
            Result::Ok(rt) => if lt == Type::Int && rt == Type::Int {
                Result::Ok(Type::Int)
            } else {
                Result::Err(TypeError::TypeMismatch { op, left: lt, right: rt })
            },
        },
    }
}

/// The outcome of checking an untyped tree under a type environment: the
/// tree's type on success, otherwise the first error of a left-to-right,
/// outside-in walk.
pub open spec fn check_res(e: Expr<()>, env: Map<Seq<char>, Type>) -> Result<Type, TypeError>
    decreases e,
{
    match e {
        Expr::Lit(l, _) => Result::Ok(lit_ty(l)),
        Expr::Var(n, _) => if env.dom().contains(n@) {
            Result::Ok(env[n@])
        } else {
            Result::Err(TypeError::UndefinedVariable(n))
        },
        Expr::Neg(inner, _) => match check_res(*inner, env) {
            Result::Err(er) => Result::Err(er),
            Result::Ok(t) => if t == Type::Int {
                Result::Ok(Type::Int)
            } else {
                Result::Err(TypeError::TypeMismatchUnary { op: '-', operand: t })
            },
        },
        Expr::Add(l, r, _) => check_bin('+', check_res(*l, env), check_res(*r, env)),
        Expr::Sub(l, r, _) => check_bin('-', check_res(*l, env), check_res(*r, env)),
        Expr::Mul(l, r, _) => check_bin('*', check_res(*l, env), check_res(*r, env)),
        Expr::Div(l, r, _) => check_bin('/', check_res(*l, env), check_res(*r, env)),
        Expr::Let { name, value, then, .. } => match check_res(*value, env) {
            Result::Err(er) => Result::Err(er),
            Result::Ok(vt) => check_res(*then, env.insert(name@, vt)),
        },
    }
}

/// The typed tree is the untyped tree with every annotation slot filled:
/// same shape, same literals, same names.
pub open spec fn erases_to(t: Expr<Type>, u: Expr<()>) -> bool
    decreases t,
{
    match t {
        Expr::Lit(l, _) => u matches Expr::Lit(l2, _) && l2 == l,
        Expr::Var(n, _) => u matches Expr::Var(n2, _) && n2 == n,
        Expr::Neg(inner, _) => u matches Expr::Neg(inner2, _) && erases_to(*inner, *inner2),
        Expr::Add(l, r, _) => u matches Expr::Add(l2, r2, _) && erases_to(*l, *l2) && erases_to(
            *r,
            *r2,
        ),
        Expr::Sub(l, r, _) => u matches Expr::Sub(l2, r2, _) && erases_to(*l, *l2) && erases_to(
            *r,
            *r2,
        ),
        Expr::Mul(l, r, _) => u matches Expr::Mul(l2, r2, _) && erases_to(*l, *l2) && erases_to(
            *r,
            *r2,
        ),
        Expr::Div(l, r, _) => u matches Expr::Div(l2, r2, _) && erases_to(*l, *l2) && erases_to(
            *r,
            *r2,
        ),
        Expr::Let { name, value, then, .. } => u matches Expr::Let {
            name: name2,
            value: value2,
            then: then2,
            ..
        } && name2 == name && erases_to(*value, *value2) && erases_to(*then, *then2),
    }
}

/// What a checker result must satisfy for input `e` under environment map
/// `m`: the outcome `check_res` gives, and on success a well-typed copy.
pub open spec fn analyze_post(e: Expr<()>, m: Map<Seq<char>, Type>, r: Result<
    Expr<Type>,
    TypeError,
>) -> bool {
    match r {
        Result::Ok(t) => check_res(e, m) == Result::Ok::<Type, TypeError>(ann(t)) && erases_to(
            t,
            e,
        ) && well_typed(t, m),
        Result::Err(er) => check_res(e, m) == Result::Err::<Type, TypeError>(er),
    }
}

impl Expr<()> {
    /// Type-check `self` under `env`.  On success the result is a
    /// well-typed copy of `self` whose root type is what the typing rules
    /// give; on failure the result is exactly the first error of a
    /// left-to-right, outside-in walk.  The environment is restored to its
    /// pre-call state either way.
    pub fn analyze(&self, env: &mut Env) -> (r: Result<Expr<Type>, TypeError>)
        ensures
            final(env)@ == old(env)@,
            analyze_post(*self, env_map(old(env)@), r),
        decreases *self, 1int,
    {
        match self {
            Expr::Lit(lit, _) => match lit {
                Literal::Int(_) => Result::Ok(Expr::Lit(lit.clone(), Type::Int)),
                Literal::String(_) => Result::Ok(Expr::Lit(lit.clone(), Type::String)),
            },
            Expr::Var(name, _) => match lookup(env, name) {
                Option::Some(i) => Result::Ok(Expr::Var(name.clone(), env[i].1)),
                Option::None => Result::Err(TypeError::UndefinedVariable(name.clone())),
            },
            Expr::Neg(_, _) => analyze_neg(self, env),
            Expr::Add(_, _, _) => analyze_add(self, env),
            Expr::Sub(_, _, _) => analyze_sub(self, env),
            Expr::Mul(_, _, _) => analyze_mul(self, env),
            Expr::Div(_, _, _) => analyze_div(self, env),
            Expr::Let { .. } => analyze_let(self, env),
        }
    }
}

/// The `Neg` case of the checker: the operand must be `Int`.
fn analyze_neg(e: &Expr<()>, env: &mut Env) -> (r: Result<Expr<Type>, TypeError>)
    requires
        *e is Neg,
    ensures
        final(env)@ == old(env)@,
        analyze_post(*e, env_map(old(env)@), r),
    decreases *e, 0int,
{
    match e {
        Expr::Neg(inner, _) => match inner.analyze(env) {
            Result::Err(er) => Result::Err(er),
            Result::Ok(t) => if *t.ty() == Type::Int {
                Result::Ok(Expr::Neg(Box::new(t), Type::Int))
            } else {
                Result::Err(TypeError::TypeMismatchUnary { op: '-', operand: *t.ty() })
            },
        },
        _ => unreached(),
    }
}

/// The `Add` case of the checker: both operands must be `Int`.
fn analyze_add(e: &Expr<()>, env: &mut Env) -> (r: Result<Expr<Type>, TypeError>)
    requires
        *e is Add,
    ensures
        final(env)@ == old(env)@,
        analyze_post(*e, env_map(old(env)@), r),
    decreases *e, 0int,
{
    match e {
        Expr::Add(lhs, rhs, _) => match lhs.analyze(env) {
            Result::Err(er) => Result::Err(er),
            Result::Ok(lt) => match rhs.analyze(env) {
                Result::Err(er) => Result::Err(er),
                Result::Ok(rt) => if *lt.ty() == Type::Int && *rt.ty() == Type::Int {
                    Result::Ok(Expr::Add(Box::new(lt), Box::new(rt), Type::Int))
                } else {
                    Result::Err(
                        TypeError::TypeMismatch { op: '+', left: *lt.ty(), right: *rt.ty() },
                    )
                },
            },
        },
        _ => unreached(),
    }
}

/// The `Sub` case of the checker: both operands must be `Int`.
fn analyze_sub(e: &Expr<()>, env: &mut Env) -> (r: Result<Expr<Type>, TypeError>)
    requires
        *e is Sub,
    ensures
        final(env)@ == old(env)@,
        analyze_post(*e, env_map(old(env)@), r),
    decreases *e, 0int,
{
    match e {
        Expr::Sub(lhs, rhs, _) => match lhs.analyze(env) {
            Result::Err(er) => Result::Err(er),
            Result::Ok(lt) => match rhs.analyze(env) {
                Result::Err(er) => Result::Err(er),
                Result::Ok(rt) => if *lt.ty() == Type::Int && *rt.ty() == Type::Int {
                    Result::Ok(Expr::Sub(Box::new(lt), Box::new(rt), Type::Int))
                } else {
                    Result::Err(
                        TypeError::TypeMismatch { op: '-', left: *lt.ty(), right: *rt.ty() },
                    )
                },
            },
        },
        _ => unreached(),
    }
}

/// The `Mul` case of the checker: both operands must be `Int`.
fn analyze_mul(e: &Expr<()>, env: &mut Env) -> (r: Result<Expr<Type>, TypeError>)
    requires
        *e is Mul,
    ensures
        final(env)@ == old(env)@,
        analyze_post(*e, env_map(old(env)@), r),
    decreases *e, 0int,
{
    match e {
        Expr::Mul(lhs, rhs, _) => match lhs.analyze(env) {
            Result::Err(er) => Result::Err(er),
            Result::Ok(lt) => match rhs.analyze(env) {
                Result::Err(er) => Result::Err(er),
                Result::Ok(rt) => if *lt.ty() == Type::Int && *rt.ty() == Type::Int {
                    Result::Ok(Expr::Mul(Box::new(lt), Box::new(rt), Type::Int))
                } else {
                    Result::Err(
                        TypeError::TypeMismatch { op: '*', left: *lt.ty(), right: *rt.ty() },
                    )
                },
            },
        },
        _ => unreached(),
    }
}

/// The `Div` case of the checker: both operands must be `Int`.
fn analyze_div(e: &Expr<()>, env: &mut Env) -> (r: Result<Expr<Type>, TypeError>)
    requires
        *e is Div,
    ensures
        final(env)@ == old(env)@,
        analyze_post(*e, env_map(old(env)@), r),
    decreases *e, 0int,
{
    match e {
        Expr::Div(lhs, rhs, _) => match lhs.analyze(env) {
            Result::Err(er) => Result::Err(er),
            Result::Ok(lt) => match rhs.analyze(env) {
                Result::Err(er) => Result::Err(er),
                Result::Ok(rt) => if *lt.ty() == Type::Int && *rt.ty() == Type::Int {
                    Result::Ok(Expr::Div(Box::new(lt), Box::new(rt), Type::Int))
                } else {
                    Result::Err(
                        TypeError::TypeMismatch { op: '/', left: *lt.ty(), right: *rt.ty() },
                    )
                },
            },
        },
        _ => unreached(),
    }
}

/// The `Let` case of the checker: bind the value's type over the body,
/// then restore the environment.
fn analyze_let(e: &Expr<()>, env: &mut Env) -> (r: Result<Expr<Type>, TypeError>)
    requires
        *e is Let,
    ensures
        final(env)@ == old(env)@,
        analyze_post(*e, env_map(old(env)@), r),
    decreases *e, 0int,
{
    match e {
        Expr::Let { name, value, then, ty: _ } => match value.analyze(env) {
            Result::Err(er) => Result::Err(er),
            Result::Ok(tv) => {
                let vt: Type = *tv.ty();
                proof {
                    lemma_env_map_push(env@, *name, vt);
                }
                env.push((name.clone(), vt));
                match then.analyze(env) {
                    Result::Err(er) => {
                        let _ = env.pop();
                        proof {
                            assert(old(env)@.push((*name, vt)).drop_last() =~= old(env)@);
                        }
                        Result::Err(er)
                    },
                    Result::Ok(tt) => {
                        let _ = env.pop();
                        proof {
                            assert(old(env)@.push((*name, vt)).drop_last() =~= old(env)@);
                        }
                        let rt: Type = *tt.ty();
                        Result::Ok(
                            Expr::Let {
                                name: name.clone(),
                                value: Box::new(tv),
                                then: Box::new(tt),
                                ty: rt,
                            },
                        )
                    },
                }
            },
        },
        _ => unreached(),
    }
}

} // verus!
