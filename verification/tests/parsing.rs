//! The parser: precedence, associativity, `let` bindings, and rejection of
//! malformed token sequences.

use minilang::lexer::{Literal, Token};
use minilang::parser::{parser, Expr};
use minilang::run;

fn int_t(n: i64) -> Token {
    Token::Int(Literal::Int(n))
}

fn name_t(n: &str) -> Token {
    Token::Name(n.to_string())
}

fn int_e(n: i64) -> Expr<()> {
    Expr::Lit(Literal::Int(n), ())
}

fn var_e(n: &str) -> Expr<()> {
    Expr::Var(n.to_string(), ())
}

#[test]
fn single_literal_parses() {
    let tokens = vec![int_t(7)];
    assert_eq!(parser(&tokens), Ok(int_e(7)));
}

#[test]
fn multiplication_binds_tighter_than_addition() {
    // 1 + 2 * 3 evaluates to 7, not 9
    let tokens = vec![int_t(1), Token::Add, int_t(2), Token::Mul, int_t(3)];
    let ast = parser(&tokens).unwrap();
    assert_eq!(
        ast,
        Expr::Add(
            Box::new(int_e(1)),
            Box::new(Expr::Mul(Box::new(int_e(2)), Box::new(int_e(3)), ())),
            ()
        )
    );
    assert_eq!(run(&ast), Ok(Literal::Int(7)));
}

#[test]
fn same_precedence_chains_associate_left() {
    // 10 - 3 - 2 evaluates to 5, not 9
    let tokens = vec![int_t(10), Token::Sub, int_t(3), Token::Sub, int_t(2)];
    let ast = parser(&tokens).unwrap();
    assert_eq!(
        ast,
        Expr::Sub(
            Box::new(Expr::Sub(Box::new(int_e(10)), Box::new(int_e(3)), ())),
            Box::new(int_e(2)),
            ()
        )
    );
    assert_eq!(run(&ast), Ok(Literal::Int(5)));
}

#[test]
fn division_chain_associates_left() {
    // 100 / 5 / 2 evaluates to 10
    let tokens = vec![int_t(100), Token::Div, int_t(5), Token::Div, int_t(2)];
    let ast = parser(&tokens).unwrap();
    assert_eq!(run(&ast), Ok(Literal::Int(10)));
}

#[test]
fn repeated_unary_minus_folds_right() {
    // - - 3 parses to Neg(Neg(3))
    let tokens = vec![Token::Sub, Token::Sub, int_t(3)];
    let ast = parser(&tokens).unwrap();
    assert_eq!(
        ast,
        Expr::Neg(Box::new(Expr::Neg(Box::new(int_e(3)), ())), ())
    );
    assert_eq!(run(&ast), Ok(Literal::Int(3)));
}

#[test]
fn unary_minus_binds_tighter_than_product() {
    // -2 * 3 evaluates to -6
    let tokens = vec![Token::Sub, int_t(2), Token::Mul, int_t(3)];
    let ast = parser(&tokens).unwrap();
    assert_eq!(run(&ast), Ok(Literal::Int(-6)));
}

#[test]
fn let_bindings_nest() {
    // let x = 5 in let y = 10 in x + y
    let tokens = vec![
        Token::Let,
        name_t("x"),
        Token::Assign,
        int_t(5),
        Token::In,
        Token::Let,
        name_t("y"),
        Token::Assign,
        int_t(10),
        Token::In,
        name_t("x"),
        Token::Add,
        name_t("y"),
    ];
    let ast = parser(&tokens).unwrap();
    assert_eq!(
        ast,
        Expr::Let {
            name: "x".to_string(),
            value: Box::new(int_e(5)),
            then: Box::new(Expr::Let {
                name: "y".to_string(),
                value: Box::new(int_e(10)),
                then: Box::new(Expr::Add(Box::new(var_e("x")), Box::new(var_e("y")), ())),
                ty: (),
            }),
            ty: (),
        }
    );
    assert_eq!(run(&ast), Ok(Literal::Int(15)));
}

#[test]
fn string_literal_parses() {
    let tokens = vec![Token::String(Literal::String("abc".to_string()))];
    assert_eq!(
        parser(&tokens),
        Ok(Expr::Lit(Literal::String("abc".to_string()), ()))
    );
}

#[test]
fn empty_input_is_rejected() {
    let tokens: Vec<Token> = Vec::new();
    assert!(parser(&tokens).is_err());
}

#[test]
fn trailing_operator_is_rejected() {
    let tokens = vec![int_t(1), Token::Add];
    assert!(parser(&tokens).is_err());
}

#[test]
fn leftover_tokens_are_rejected() {
    let tokens = vec![int_t(1), int_t(2)];
    assert!(parser(&tokens).is_err());
}

#[test]
fn let_without_in_is_rejected() {
    let tokens = vec![Token::Let, name_t("x"), Token::Assign, int_t(1)];
    assert!(parser(&tokens).is_err());
}

#[test]
fn let_without_name_is_rejected() {
    let tokens = vec![Token::Let, Token::Assign, int_t(1), Token::In, int_t(2)];
    assert!(parser(&tokens).is_err());
}

#[test]
fn let_body_may_be_an_expression_chain() {
    // let x = 2 in x * x + 1 evaluates to 5
    let tokens = vec![
        Token::Let,
        name_t("x"),
        Token::Assign,
        int_t(2),
        Token::In,
        name_t("x"),
        Token::Mul,
        name_t("x"),
        Token::Add,
        int_t(1),
    ];
    let ast = parser(&tokens).unwrap();
    assert_eq!(run(&ast), Ok(Literal::Int(5)));
}
