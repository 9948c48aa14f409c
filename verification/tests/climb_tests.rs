use std::rc::Rc;
use wu_ast::ast::{Expression, ExpressionNode};
use wu_ast::climb::{parse_expression, InfixToken};
use wu_ast::operator::Operator;
use wu_ast::source::Pos;

fn int_at(v: u64, column: u64) -> Expression {
    Expression::new(ExpressionNode::Int(v), Pos::new(1, column))
}

fn tok(lexeme: &str, operand: Expression, column: u64) -> InfixToken {
    InfixToken {
        lexeme: String::from(lexeme),
        operand: Rc::new(operand),
        pos: Pos::new(1, column),
    }
}

fn binary(left: Expression, op: Operator, right: Expression, column: u64) -> Expression {
    Expression::binary(Rc::new(left), op, Rc::new(right), Pos::new(1, column))
}

#[test]
fn multiplication_binds_tighter_than_addition() {
    // 1 + 2 * 3 parses as 1 + (2 * 3), not (1 + 2) * 3.
    let toks = vec![tok("+", int_at(2, 5), 3), tok("*", int_at(3, 9), 7)];
    let got = parse_expression(Rc::new(int_at(1, 1)), &toks).expect("all lexemes are operators");
    let expected = binary(int_at(1, 1), Operator::Add, binary(int_at(2, 5), Operator::Mul, int_at(3, 9), 7), 3);
    assert_eq!(*got, expected);
}

#[test]
fn power_is_right_associative() {
    // 2 ^ 3 ^ 2 parses as 2 ^ (3 ^ 2).
    let toks = vec![tok("^", int_at(3, 5), 3), tok("^", int_at(2, 9), 7)];
    let got = parse_expression(Rc::new(int_at(2, 1)), &toks).expect("all lexemes are operators");
    let expected = binary(int_at(2, 1), Operator::Pow, binary(int_at(3, 5), Operator::Pow, int_at(2, 9), 7), 3);
    assert_eq!(*got, expected);
}

#[test]
fn equal_ranks_fold_to_the_left() {
    // 1 - 2 - 3 parses as (1 - 2) - 3.
    let toks = vec![tok("-", int_at(2, 5), 3), tok("-", int_at(3, 9), 7)];
    let got = parse_expression(Rc::new(int_at(1, 1)), &toks).expect("all lexemes are operators");
    let expected = binary(binary(int_at(1, 1), Operator::Sub, int_at(2, 5), 3), Operator::Sub, int_at(3, 9), 7);
    assert_eq!(*got, expected);
}

#[test]
fn comparisons_bind_loosest() {
    // 1 + 2 < 3 * 4 parses as (1 + 2) < (3 * 4).
    let toks = vec![
        tok("+", int_at(2, 5), 3),
        tok("<", int_at(3, 9), 7),
        tok("*", int_at(4, 13), 11),
    ];
    let got = parse_expression(Rc::new(int_at(1, 1)), &toks).expect("all lexemes are operators");
    let expected = binary(
        binary(int_at(1, 1), Operator::Add, int_at(2, 5), 3),
        Operator::Lt,
        binary(int_at(3, 9), Operator::Mul, int_at(4, 13), 11),
        7,
    );
    assert_eq!(*got, expected);
}

#[test]
fn empty_tail_returns_the_first_operand() {
    let toks: Vec<InfixToken> = Vec::new();
    let got = parse_expression(Rc::new(int_at(7, 1)), &toks).expect("nothing to reject");
    assert_eq!(*got, int_at(7, 1));
}

#[test]
fn unrecognized_lexeme_stops_the_parse() {
    let toks = vec![tok("+", int_at(2, 5), 3), tok("&&", int_at(3, 9), 7)];
    assert_eq!(parse_expression(Rc::new(int_at(1, 1)), &toks), None);
}

#[test]
fn binary_nodes_sit_at_their_operator_position() {
    let toks = vec![tok("+", int_at(2, 5), 3)];
    let got = parse_expression(Rc::new(int_at(1, 1)), &toks).expect("all lexemes are operators");
    assert_eq!(got.pos, Pos::new(1, 3));
}

#[test]
fn concat_shares_the_additive_rank() {
    // 1 ++ 2 - 3 folds left: (1 ++ 2) - 3.
    let toks = vec![tok("++", int_at(2, 5), 3), tok("-", int_at(3, 10), 8)];
    let got = parse_expression(Rc::new(int_at(1, 1)), &toks).expect("all lexemes are operators");
    let expected = binary(
        binary(int_at(1, 1), Operator::Concat, int_at(2, 5), 3),
        Operator::Sub,
        int_at(3, 10),
        8,
    );
    assert_eq!(*got, expected);
}
