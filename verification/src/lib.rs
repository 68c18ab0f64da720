//! A minimal statically-typed expression language: integer and string
//! literals, arithmetic operators, and `let`-scoped variable bindings.
//!
//! A token sequence is parsed into an untyped expression tree, the tree is
//! type-checked into a typed tree, and the typed tree is evaluated to a
//! single literal value.  A tree that has passed checking is structurally
//! well typed, so evaluation can never reach an operand of the wrong kind.

pub mod analyzer;
pub mod env;
pub mod interpreter;
pub mod lexer;
pub mod parser;

use crate::analyzer::{check_res, Type, TypeError};
use crate::env::env_map;
use crate::interpreter::{eval_res, lemma_eval_res_erases, ty_env_of, RuntimeError};
use crate::lexer::Literal;
use crate::parser::Expr;
use vstd::prelude::*;

verus! {

/// An error from either pass of the pipeline.
#[derive(Debug, PartialEq, Eq)]
pub enum RunError {
    /// The tree was rejected by the type checker.
    Check(TypeError),
    /// The checked tree raised a runtime error during evaluation.
    Eval(RuntimeError),
}

/// Run the whole pipeline on an untyped tree with empty environments:
/// type-check it, and evaluate the typed tree the checker produced.  The
/// result is exactly what the specification-level checking and evaluation
/// of the input give; a tree that fails checking is never evaluated, and a
/// tree that passes can fail only with division by zero.
pub fn run(e: &Expr<()>) -> (r: Result<Literal, RunError>)
    ensures
        match check_res(*e, Map::empty()) {
            Result::Err(te) => r == Result::Err::<Literal, RunError>(RunError::Check(te)),
            Result::Ok(_) => match eval_res(*e, Map::empty()) {
                Result::Ok(l) => r == Result::Ok::<Literal, RunError>(l),
                Result::Err(er) => r == Result::Err::<Literal, RunError>(RunError::Eval(er)) && er
                    is DivisionByZero,
            },
        },
{
    let mut tenv: analyzer::Env = Vec::new();
    proof {
        assert(env_map(Seq::<(String, Type)>::empty()) =~= Map::<Seq<char>, Type>::empty());
    }
    let typed = match e.analyze(&mut tenv) {
        Result::Err(te) => {
            return Result::Err(RunError::Check(te));
        },
        Result::Ok(t) => t,
    };
    let mut venv: interpreter::Env = Vec::new();
    proof {
        assert(env_map(Seq::<(String, Literal)>::empty()) =~= Map::<
            Seq<char>,
            Literal,
        >::empty());
        assert(ty_env_of(Map::empty()) =~= Map::<Seq<char>, Type>::empty());
        lemma_eval_res_erases(typed, *e, Map::empty());
    }
    match typed.eval(&mut venv) {
        Result::Ok(l) => Result::Ok(l),
        Result::Err(er) => Result::Err(RunError::Eval(er)),
    }
}

} // verus!
