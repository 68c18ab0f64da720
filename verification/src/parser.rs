//! The expression tree and the parser that builds it from tokens.
//!
//! The tree is generic over the annotation carried by every node: the
//! parser produces trees whose annotation slot is the unit placeholder, and
//! the type checker fills the slot with a concrete type.  That the
//! evaluator's input type accepts only the concrete-type instantiation is
//! what enforces checker-before-evaluator ordering structurally.

use crate::lexer::{Literal, Token};
use vstd::prelude::*;

verus! {

/// An expression tree whose every node carries an annotation of type `Ty`.
#[derive(Debug, PartialEq, Eq)]
pub enum Expr<Ty> {
    /// A literal value.
    Lit(Literal, Ty),
    /// A variable reference.
    Var(String, Ty),
    /// Unary negation.
    Neg(Box<Expr<Ty>>, Ty),
    /// Addition.
    Add(Box<Expr<Ty>>, Box<Expr<Ty>>, Ty),
    /// Subtraction.
    Sub(Box<Expr<Ty>>, Box<Expr<Ty>>, Ty),
    /// Multiplication.
    Mul(Box<Expr<Ty>>, Box<Expr<Ty>>, Ty),
    /// Division.
    Div(Box<Expr<Ty>>, Box<Expr<Ty>>, Ty),
    /// `let name = value in then`: binds `name` for the lexical extent of
    /// `then` only; the node's own type and value are those of `then`.
    Let { name: String, value: Box<Expr<Ty>>, then: Box<Expr<Ty>>, ty: Ty },
}

/// The annotation at the root of a tree.
pub open spec fn ann<Ty>(e: Expr<Ty>) -> Ty {
    match e {
        Expr::Lit(_, ty) => ty,
        Expr::Var(_, ty) => ty,
        Expr::Neg(_, ty) => ty,
        Expr::Add(_, _, ty) => ty,
        Expr::Sub(_, _, ty) => ty,
        Expr::Mul(_, _, ty) => ty,
        Expr::Div(_, _, ty) => ty,
        Expr::Let { ty, .. } => ty,
    }
}

impl<Ty> Expr<Ty> {
    /// The annotation attached to the root node.
    pub fn ty(&self) -> (r: &Ty)
        ensures
            *r == ann(*self),
    {
        match self {
            Expr::Lit(_, ty) => ty,
            Expr::Var(_, ty) => ty,
            Expr::Neg(_, ty) => ty,
            Expr::Add(_, _, ty) => ty,
            Expr::Sub(_, _, ty) => ty,
            Expr::Mul(_, _, ty) => ty,
            Expr::Div(_, _, ty) => ty,
            Expr::Let { ty, .. } => ty,
        }
    }
}

/// A token sequence that does not obey the grammar.
#[derive(Debug, PartialEq, Eq, Structural)]
pub struct ParseError;

/// The grammar, written as specification-level recursive descent over a
/// token sequence at a position.  Each rule gives the tree it builds and
/// the position just past what it consumed, or nothing if the tokens do
/// not match the rule.
///
/// `atom -> int | string | name`
pub open spec fn spec_atom(ts: Seq<Token>, pos: int) -> Option<(Expr<()>, int)> {
    if 0 <= pos < ts.len() {
        match ts[pos] {
            Token::Int(l) => Option::Some((Expr::Lit(l, ()), pos + 1)),
            Token::String(l) => Option::Some((Expr::Lit(l, ()), pos + 1)),
            Token::Name(n) => Option::Some((Expr::Var(n, ()), pos + 1)),
            _ => Option::None,
        }
    } else {
        Option::None
    }
}

/// `unary -> atom | '-' unary`
pub open spec fn spec_unary(ts: Seq<Token>, pos: int) -> Option<(Expr<()>, int)>
    decreases ts.len() - pos,
{
    if 0 <= pos < ts.len() && ts[pos] is Sub {
        match spec_unary(ts, pos + 1) {
            Option::Some((e, p)) => Option::Some((Expr::Neg(Box::new(e), ()), p)),
            Option::None => Option::None,
        }
    } else {
        spec_atom(ts, pos)
    }
}

/// The left-associative tail of `product -> unary ('*' unary | '/' unary)*`,
/// folding onto an already parsed left operand.
pub open spec fn spec_product_rest(ts: Seq<Token>, pos: int, acc: Expr<()>) -> Option<
    (Expr<()>, int),
>
    decreases ts.len() - pos,
{
    if 0 <= pos < ts.len() && (ts[pos] is Mul || ts[pos] is Div) {
        match spec_unary(ts, pos + 1) {
            Option::Some((rhs, p2)) => if pos < p2 <= ts.len() {
                spec_product_rest(
                    ts,
                    p2,
                    if ts[pos] is Mul {
                        Expr::Mul(Box::new(acc), Box::new(rhs), ())
                    } else {
                        Expr::Div(Box::new(acc), Box::new(rhs), ())
                    },
                )
            } else {
                Option::None
            },
            Option::None => Option::None,
        }
    } else {
        Option::Some((acc, pos))
    }
}

/// `product -> unary ('*' unary | '/' unary)*`
pub open spec fn spec_product(ts: Seq<Token>, pos: int) -> Option<(Expr<()>, int)> {
    match spec_unary(ts, pos) {
        Option::Some((e, p)) => spec_product_rest(ts, p, e),
        Option::None => Option::None,
    }
}

/// The left-associative tail of `sum -> product ('+' product | '-' product)*`.
pub open spec fn spec_sum_rest(ts: Seq<Token>, pos: int, acc: Expr<()>) -> Option<(Expr<()>, int)>
    decreases ts.len() - pos,
{
    if 0 <= pos < ts.len() && (ts[pos] is Add || ts[pos] is Sub) {
        match spec_product(ts, pos + 1) {
            Option::Some((rhs, p2)) => if pos < p2 <= ts.len() {
                spec_sum_rest(
                    ts,
                    p2,
                    if ts[pos] is Add {
                        Expr::Add(Box::new(acc), Box::new(rhs), ())
                    } else {
                        Expr::Sub(Box::new(acc), Box::new(rhs), ())
                    },
                )
            } else {
                Option::None
            },
            Option::None => Option::None,
        }
    } else {
        Option::Some((acc, pos))
    }
}

/// `sum -> product ('+' product | '-' product)*`
pub open spec fn spec_sum(ts: Seq<Token>, pos: int) -> Option<(Expr<()>, int)> {
    match spec_product(ts, pos) {
        Option::Some((e, p)) => spec_sum_rest(ts, p, e),
        Option::None => Option::None,
    }
}

/// `decl -> 'let' name '=' sum 'in' decl | sum`
pub open spec fn spec_decl(ts: Seq<Token>, pos: int) -> Option<(Expr<()>, int)>
    decreases ts.len() - pos,
{
    if 0 <= pos < ts.len() && ts[pos] is Let {
        if pos + 1 < ts.len() {
            match ts[pos + 1] {
                Token::Name(n) => if pos + 2 < ts.len() && ts[pos + 2] is Assign {
                    match spec_sum(ts, pos + 3) {
                        Option::Some((value, p2)) => if pos < p2 < ts.len() && ts[p2] is In {
                            match spec_decl(ts, p2 + 1) {
                                Option::Some((body, p3)) => Option::Some(
                                    (
                                        Expr::Let {
                                            name: n,
                                            value: Box::new(value),
                                            then: Box::new(body),
                                            ty: (),
                                        },
                                        p3,
                                    ),
                                ),
                                Option::None => Option::None,
                            }
                        } else {
                            Option::None
                        },
                        Option::None => Option::None,
                    }
                } else {
                    Option::None
                },
                _ => Option::None,
            }
        } else {
            Option::None
        }
    } else {
        spec_sum(ts, pos)
    }
}

/// The tree a whole token sequence parses to: a `decl` that consumes every
/// token, or nothing if the sequence does not obey the grammar.
pub open spec fn parse_res(ts: Seq<Token>) -> Option<Expr<()>> {
    match spec_decl(ts, 0) {
        Option::Some((e, p)) => if p == ts.len() {
            Option::Some(e)
        } else {
            Option::None
        },
        Option::None => Option::None,
    }
}

/// `atom -> int | string | name`
fn parse_atom(ts: &Vec<Token>, pos: usize) -> (r: Result<(Expr<()>, usize), ParseError>)
    ensures
        match r {
            Result::Ok((e, p)) => spec_atom(ts@, pos as int) == Option::Some((e, p as int)) && pos
                < p <= ts@.len(),
            Result::Err(_) => spec_atom(ts@, pos as int) is None,
        },
{
    if pos < ts.len() {
        match &ts[pos] {
            Token::Int(l) => Result::Ok((Expr::Lit(l.clone(), ()), pos + 1)),
            Token::String(l) => Result::Ok((Expr::Lit(l.clone(), ()), pos + 1)),
            Token::Name(n) => Result::Ok((Expr::Var(n.clone(), ()), pos + 1)),
            _ => Result::Err(ParseError),
        }
    } else {
        Result::Err(ParseError)
    }
}

/// `unary -> atom | '-' unary`
fn parse_unary(ts: &Vec<Token>, pos: usize) -> (r: Result<(Expr<()>, usize), ParseError>)
    ensures
        match r {
            Result::Ok((e, p)) => spec_unary(ts@, pos as int) == Option::Some((e, p as int)) && pos
                < p <= ts@.len(),
            Result::Err(_) => spec_unary(ts@, pos as int) is None,
        },
    decreases ts@.len() - pos,
{
    if pos < ts.len() && matches!(&ts[pos], Token::Sub) {
        match parse_unary(ts, pos + 1) {
            Result::Ok((e, p)) => Result::Ok((Expr::Neg(Box::new(e), ()), p)),
            Result::Err(er) => Result::Err(er),
        }
    } else {
        parse_atom(ts, pos)
    }
}

/// The left-associative tail of `product`.
fn parse_product_rest(ts: &Vec<Token>, pos: usize, acc: Expr<()>) -> (r: Result<
    (Expr<()>, usize),
    ParseError,
>)
    requires
        pos <= ts@.len(),
    ensures
        match r {
            Result::Ok((e, p)) => spec_product_rest(ts@, pos as int, acc) == Option::Some(
                (e, p as int),
            ) && pos <= p <= ts@.len(),
            Result::Err(_) => spec_product_rest(ts@, pos as int, acc) is None,
        },
    decreases ts@.len() - pos,
{
    if pos < ts.len() && (matches!(&ts[pos], Token::Mul) || matches!(&ts[pos], Token::Div)) {
        let is_mul = matches!(&ts[pos], Token::Mul);
        match parse_unary(ts, pos + 1) {
            Result::Err(er) => Result::Err(er),
            Result::Ok((rhs, p2)) => parse_product_rest(
                ts,
                p2,
                if is_mul {
                    Expr::Mul(Box::new(acc), Box::new(rhs), ())
                } else {
                    Expr::Div(Box::new(acc), Box::new(rhs), ())
                },
            ),
        }
    } else {
        Result::Ok((acc, pos))
    }
}

/// `product -> unary ('*' unary | '/' unary)*`
fn parse_product(ts: &Vec<Token>, pos: usize) -> (r: Result<(Expr<()>, usize), ParseError>)
    ensures
        match r {
            Result::Ok((e, p)) => spec_product(ts@, pos as int) == Option::Some((e, p as int))
                && pos < p <= ts@.len(),
            Result::Err(_) => spec_product(ts@, pos as int) is None,
        },
{
    match parse_unary(ts, pos) {
        Result::Err(er) => Result::Err(er),
        Result::Ok((e, p)) => parse_product_rest(ts, p, e),
    }
}

/// The left-associative tail of `sum`.
fn parse_sum_rest(ts: &Vec<Token>, pos: usize, acc: Expr<()>) -> (r: Result<
    (Expr<()>, usize),
    ParseError,
>)
    requires
        pos <= ts@.len(),
    ensures
        match r {
            Result::Ok((e, p)) => spec_sum_rest(ts@, pos as int, acc) == Option::Some(
                (e, p as int),
            ) && pos <= p <= ts@.len(),
            Result::Err(_) => spec_sum_rest(ts@, pos as int, acc) is None,
        },
    decreases ts@.len() - pos,
{
    if pos < ts.len() && (matches!(&ts[pos], Token::Add) || matches!(&ts[pos], Token::Sub)) {
        let is_add = matches!(&ts[pos], Token::Add);
        match parse_product(ts, pos + 1) {
            Result::Err(er) => Result::Err(er),
            Result::Ok((rhs, p2)) => parse_sum_rest(
                ts,
                p2,
                if is_add {
                    Expr::Add(Box::new(acc), Box::new(rhs), ())
                } else {
                    Expr::Sub(Box::new(acc), Box::new(rhs), ())
                },
            ),
        }
    } else {
        Result::Ok((acc, pos))
    }
}

/// `sum -> product ('+' product | '-' product)*`
fn parse_sum(ts: &Vec<Token>, pos: usize) -> (r: Result<(Expr<()>, usize), ParseError>)
    ensures
        match r {
            Result::Ok((e, p)) => spec_sum(ts@, pos as int) == Option::Some((e, p as int)) && pos
                < p <= ts@.len(),
            Result::Err(_) => spec_sum(ts@, pos as int) is None,
        },
{
    match parse_product(ts, pos) {
        Result::Err(er) => Result::Err(er),
        Result::Ok((e, p)) => parse_sum_rest(ts, p, e),
    }
}

/// `decl -> 'let' name '=' sum 'in' decl | sum`
fn parse_decl(ts: &Vec<Token>, pos: usize) -> (r: Result<(Expr<()>, usize), ParseError>)
    ensures
        match r {
            Result::Ok((e, p)) => spec_decl(ts@, pos as int) == Option::Some((e, p as int)) && pos
                < p <= ts@.len(),
            Result::Err(_) => spec_decl(ts@, pos as int) is None,
        },
    decreases ts@.len() - pos,
{
    if pos < ts.len() && matches!(&ts[pos], Token::Let) {
        if pos + 1 < ts.len() {
            match &ts[pos + 1] {
                Token::Name(n) => {
                    if pos + 2 < ts.len() && matches!(&ts[pos + 2], Token::Assign) {
                        match parse_sum(ts, pos + 3) {
                            Result::Err(er) => Result::Err(er),
                            Result::Ok((value, p2)) => {
                                if p2 < ts.len() && matches!(&ts[p2], Token::In) {
                                    match parse_decl(ts, p2 + 1) {
                                        Result::Err(er) => Result::Err(er),
                                        Result::Ok((body, p3)) => Result::Ok(
                                            (
                                                Expr::Let {
                                                    name: n.clone(),
                                                    value: Box::new(value),
                                                    then: Box::new(body),
                                                    ty: (),
                                                },
                                                p3,
                                            ),
                                        ),
                                    }
                                } else {
                                    Result::Err(ParseError)
                                }
                            },
                        }
                    } else {
                        Result::Err(ParseError)
                    }
                },
                _ => Result::Err(ParseError),
            }
        } else {
            Result::Err(ParseError)
        }
    } else {
        parse_sum(ts, pos)
    }
}

/// Parse a whole token sequence into an untyped tree.  The result is
/// exactly what the specification-level grammar gives: the tree that
/// derives the sequence with every token consumed, or an error if the
/// sequence does not obey the grammar.
pub fn parser(tokens: &Vec<Token>) -> (r: Result<Expr<()>, ParseError>)
    ensures
        match r {
            Result::Ok(e) => parse_res(tokens@) == Option::Some(e),
            Result::Err(_) => parse_res(tokens@) is None,
        },
{
    match parse_decl(tokens, 0) {
        Result::Err(er) => Result::Err(er),
        Result::Ok((e, p)) => if p == tokens.len() {
            Result::Ok(e)
        } else {
            Result::Err(ParseError)
        },
    }
}

} // verus!
