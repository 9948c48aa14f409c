use wu_ast::operator::Operator;

#[test]
fn round_trip_every_lexeme() {
    let ops = [
        Operator::Add,
        Operator::Sub,
        Operator::Mul,
        Operator::Div,
        Operator::Mod,
        Operator::Pow,
        Operator::Concat,
        Operator::Eq,
        Operator::Lt,
        Operator::Gt,
        Operator::NEq,
        Operator::LtEq,
        Operator::GtEq,
    ];
    for op in ops {
        let (back, _rank) = Operator::from_str(op.as_str()).expect("canonical lexeme recognized");
        assert_eq!(back, op);
    }
}

#[test]
fn lexemes_are_exact() {
    assert_eq!(Operator::Add.as_str(), "+");
    assert_eq!(Operator::Sub.as_str(), "-");
    assert_eq!(Operator::Mul.as_str(), "*");
    assert_eq!(Operator::Div.as_str(), "/");
    assert_eq!(Operator::Mod.as_str(), "%");
    assert_eq!(Operator::Pow.as_str(), "^");
    assert_eq!(Operator::Concat.as_str(), "++");
    assert_eq!(Operator::Eq.as_str(), "==");
    assert_eq!(Operator::Lt.as_str(), "<");
    assert_eq!(Operator::Gt.as_str(), ">");
    assert_eq!(Operator::NEq.as_str(), "!=");
    assert_eq!(Operator::LtEq.as_str(), "<=");
    assert_eq!(Operator::GtEq.as_str(), ">=");
}

#[test]
fn ranks_follow_the_table() {
    assert_eq!(Operator::from_str("=="), Some((Operator::Eq, 1)));
    assert_eq!(Operator::from_str("<"), Some((Operator::Lt, 1)));
    assert_eq!(Operator::from_str(">"), Some((Operator::Gt, 1)));
    assert_eq!(Operator::from_str("!="), Some((Operator::NEq, 1)));
    assert_eq!(Operator::from_str("<="), Some((Operator::LtEq, 1)));
    assert_eq!(Operator::from_str(">="), Some((Operator::GtEq, 1)));
    assert_eq!(Operator::from_str("+"), Some((Operator::Add, 2)));
    assert_eq!(Operator::from_str("-"), Some((Operator::Sub, 2)));
    assert_eq!(Operator::from_str("++"), Some((Operator::Concat, 2)));
    assert_eq!(Operator::from_str("*"), Some((Operator::Mul, 3)));
    assert_eq!(Operator::from_str("/"), Some((Operator::Div, 3)));
    assert_eq!(Operator::from_str("%"), Some((Operator::Mod, 3)));
    assert_eq!(Operator::from_str("^"), Some((Operator::Pow, 4)));
}

#[test]
fn rank_groups_strictly_ordered() {
    let comparison = ["==", "<", ">", "!=", "<=", ">="];
    let additive = ["+", "-", "++"];
    let multiplicative = ["*", "/", "%"];
    let pow_rank = Operator::from_str("^").unwrap().1;
    for c in comparison {
        let rc = Operator::from_str(c).unwrap().1;
        for a in additive {
            let ra = Operator::from_str(a).unwrap().1;
            assert!(rc < ra);
            for m in multiplicative {
                let rm = Operator::from_str(m).unwrap().1;
                assert!(ra < rm);
                assert!(rm < pow_rank);
            }
        }
    }
}

#[test]
fn unrecognized_lexemes_have_no_match() {
    for s in ["", "<==", "===", "&&", "||", "a", "<>", "+-", "**", "!", "=", " + "] {
        assert_eq!(Operator::from_str(s), None, "{s:?} must not be an operator");
    }
}

#[test]
fn almost_operators_are_rejected() {
    assert_eq!(Operator::from_str("<="), Some((Operator::LtEq, 1)));
    assert_eq!(Operator::from_str("<=="), None);
}
