use std::rc::Rc;
use wu_ast::ast::{Expression, ExpressionNode, Statement, StatementNode, Type};
use wu_ast::operator::Operator;
use wu_ast::source::Pos;

fn int_at(v: u64, line: u64, column: u64) -> Expression {
    Expression::new(ExpressionNode::Int(v), Pos::new(line, column))
}

#[test]
fn equal_payload_and_position_compare_equal() {
    let a = Expression::new(
        ExpressionNode::Identifier(String::from("x")),
        Pos::new(3, 7),
    );
    let b = Expression::new(
        ExpressionNode::Identifier(String::from("x")),
        Pos::new(3, 7),
    );
    assert_eq!(a, b);
}

#[test]
fn changing_only_the_position_makes_nodes_unequal() {
    let a = int_at(42, 1, 1);
    let b = int_at(42, 1, 2);
    assert_ne!(a, b);
}

#[test]
fn changing_only_the_payload_makes_nodes_unequal() {
    let a = int_at(42, 1, 1);
    let b = int_at(43, 1, 1);
    assert_ne!(a, b);
}

#[test]
fn statement_constructor_stores_node_and_position() {
    let pos = Pos::new(5, 2);
    let s = Statement::new(StatementNode::Break, pos);
    assert_eq!(s.node, StatementNode::Break);
    assert_eq!(s.pos, pos);
    let t = Statement::new(StatementNode::Skip, pos);
    assert_eq!(t.node, StatementNode::Skip);
}

#[test]
fn variable_statement_keeps_its_payload() {
    let init = int_at(1, 2, 9);
    let s = Statement::new(
        StatementNode::Variable(
            Type::new(String::from("int")),
            String::from("n"),
            Some(init.clone()),
        ),
        Pos::new(2, 1),
    );
    match &s.node {
        StatementNode::Variable(t, name, Some(e)) => {
            assert_eq!(t.name, "int");
            assert_eq!(name, "n");
            assert_eq!(*e, init);
        }
        other => panic!("unexpected node {other:?}"),
    }
}

#[test]
fn block_preserves_insertion_order_under_construction_and_clone() {
    let stmts: Vec<Statement> = (0..5)
        .map(|i| {
            Statement::new(
                StatementNode::Expression(int_at(i, 1, i)),
                Pos::new(1, i),
            )
        })
        .collect();
    let block = Expression::new(ExpressionNode::Block(stmts.clone()), Pos::new(1, 0));
    let copy = block.clone();
    for candidate in [&block, &copy] {
        match &candidate.node {
            ExpressionNode::Block(inner) => {
                assert_eq!(inner.len(), 5);
                for (i, s) in inner.iter().enumerate() {
                    assert_eq!(*s, stmts[i], "statement {i} out of order");
                }
            }
            other => panic!("unexpected node {other:?}"),
        }
    }
    assert_eq!(block, copy);
}

#[test]
fn binary_construction_leaves_the_operands_unchanged() {
    let left = Rc::new(int_at(1, 1, 1));
    let right = Rc::new(int_at(2, 1, 5));
    let left_alias = Rc::clone(&left);
    let right_alias = Rc::clone(&right);
    let bin = Expression::binary(left, Operator::Add, right, Pos::new(1, 3));
    assert_eq!(*left_alias, int_at(1, 1, 1));
    assert_eq!(*right_alias, int_at(2, 1, 5));
    match &bin.node {
        ExpressionNode::Binary(l, op, r) => {
            assert_eq!(**l, int_at(1, 1, 1));
            assert_eq!(*op, Operator::Add);
            assert_eq!(**r, int_at(2, 1, 5));
        }
        other => panic!("unexpected node {other:?}"),
    }
    assert_eq!(bin.pos, Pos::new(1, 3));
}

#[test]
fn shared_subexpression_serves_two_parents() {
    let shared = Rc::new(int_at(7, 2, 2));
    let a = Expression::binary(
        Rc::clone(&shared),
        Operator::Mul,
        Rc::new(int_at(1, 2, 6)),
        Pos::new(2, 4),
    );
    let b = Expression::binary(
        Rc::new(int_at(0, 3, 1)),
        Operator::Add,
        Rc::clone(&shared),
        Pos::new(3, 3),
    );
    match (&a.node, &b.node) {
        (ExpressionNode::Binary(l, _, _), ExpressionNode::Binary(_, _, r)) => {
            assert!(Rc::ptr_eq(l, &shared));
            assert!(Rc::ptr_eq(r, &shared));
        }
        other => panic!("unexpected nodes {other:?}"),
    }
    assert_eq!(*shared, int_at(7, 2, 2));
}

#[test]
fn if_with_no_clauses_stores_none() {
    let e = Expression::new(
        ExpressionNode::If(
            Rc::new(int_at(1, 1, 4)),
            Rc::new(int_at(2, 1, 7)),
            None,
        ),
        Pos::new(1, 1),
    );
    match &e.node {
        ExpressionNode::If(_, _, clauses) => assert!(clauses.is_none()),
        other => panic!("unexpected node {other:?}"),
    }
}

#[test]
fn if_clauses_keep_their_literal_order() {
    let clauses = vec![
        (Some(int_at(1, 2, 4)), int_at(10, 2, 8), Pos::new(2, 1)),
        (Some(int_at(2, 3, 4)), int_at(20, 3, 8), Pos::new(3, 1)),
        (None, int_at(30, 4, 8), Pos::new(4, 1)),
    ];
    let e = Expression::new(
        ExpressionNode::If(
            Rc::new(int_at(0, 1, 4)),
            Rc::new(int_at(5, 1, 7)),
            Some(clauses.clone()),
        ),
        Pos::new(1, 1),
    );
    let copy = e.clone();
    for candidate in [&e, &copy] {
        match &candidate.node {
            ExpressionNode::If(_, _, Some(stored)) => {
                assert_eq!(stored.len(), 3);
                for (i, clause) in stored.iter().enumerate() {
                    assert_eq!(*clause, clauses[i], "clause {i} out of order");
                }
            }
            other => panic!("unexpected node {other:?}"),
        }
    }
}

#[test]
fn clone_preserves_every_kind_of_payload() {
    let func = Expression::new(
        ExpressionNode::Function(
            vec![
                (String::from("a"), Type::new(String::from("int"))),
                (String::from("b"), Type::new(String::from("str"))),
            ],
            Type::new(String::from("bool")),
            Rc::new(int_at(1, 9, 9)),
            vec![String::from("inline")],
        ),
        Pos::new(9, 1),
    );
    assert_eq!(func.clone(), func);

    let module = Expression::new(
        ExpressionNode::Module(Rc::new(int_at(3, 1, 1))),
        Pos::new(1, 1),
    );
    assert_eq!(module.clone(), module);

    let import = Statement::new(
        StatementNode::Import(
            String::from("math"),
            vec![String::from("sin"), String::from("cos")],
        ),
        Pos::new(1, 1),
    );
    assert_eq!(import.clone(), import);

    let init = Expression::new(
        ExpressionNode::Initialization(
            Rc::new(Expression::new(
                ExpressionNode::Identifier(String::from("Point")),
                Pos::new(6, 1),
            )),
            vec![
                (String::from("x"), int_at(1, 6, 9)),
                (String::from("y"), int_at(2, 6, 15)),
            ],
        ),
        Pos::new(6, 1),
    );
    assert_eq!(init.clone(), init);
}

#[test]
fn float_literal_keeps_its_bit_pattern() {
    let bits = 2.5_f64.to_bits();
    let e = Expression::new(ExpressionNode::Float(bits), Pos::new(1, 1));
    match e.node {
        ExpressionNode::Float(stored) => assert_eq!(f64::from_bits(stored), 2.5),
        other => panic!("unexpected node {other:?}"),
    }
}

#[test]
fn sentinels_carry_positions_too() {
    let eof = Expression::new(ExpressionNode::EOF, Pos::new(99, 1));
    assert_eq!(eof.pos, Pos::new(99, 1));
    let empty = Expression::new(ExpressionNode::Empty, Pos::new(99, 2));
    assert_eq!(empty.pos, Pos::new(99, 2));
    assert_ne!(eof.node, empty.node);
}
