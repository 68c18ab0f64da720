//! Token and literal types produced by lexical scanning.
//!
//! Scanning itself is an external front-end concern; the library consumes a
//! ready-made token sequence and only defines the shapes the scanner hands
//! over.

use vstd::prelude::*;

verus! {

/// An immutable tagged value: an integer or a piece of text.
#[derive(Debug, PartialEq, Eq)]
pub enum Literal {
    Int(i64),
    String(String),
}

impl Clone for Literal {
    fn clone(&self) -> (res: Self)
        ensures
            res == *self,
    {
        match self {
            Literal::Int(n) => Literal::Int(*n),
            Literal::String(s) => Literal::String(s.clone()),
        }
    }
}

/// One lexical token of the surface syntax.
#[derive(Debug, PartialEq, Eq)]
pub enum Token {
    /// An integer literal.
    Int(Literal),
    /// A string literal.
    String(Literal),
    /// An identifier.
    Name(String),
    /// The operator `+`.
    Add,
    /// The operator `-`.
    Sub,
    /// The operator `*`.
    Mul,
    /// The operator `/`.
    Div,
    /// The operator `=`.
    Assign,
    /// The keyword `let`.
    Let,
    /// The keyword `in`.
    In,
}

impl Clone for Token {
    fn clone(&self) -> (res: Self)
        ensures
            res == *self,
    {
        match self {
            Token::Int(l) => Token::Int(l.clone()),
            Token::String(l) => Token::String(l.clone()),
            Token::Name(s) => Token::Name(s.clone()),
            Token::Add => Token::Add,
            Token::Sub => Token::Sub,
            Token::Mul => Token::Mul,
            Token::Div => Token::Div,
            Token::Assign => Token::Assign,
            Token::Let => Token::Let,
            Token::In => Token::In,
        }
    }
}

} // verus!
