//! The operator and precedence table.
//!
//! A pure mapping from operator lexeme to (operator, binding power), with
//! the inverse mapping back to the canonical lexeme. This table is the single
//! source of truth that precedence climbing consults; no other component may
//! hard-code precedence.

use vstd::prelude::*;
use vstd::string::StrSliceExecFns;

verus! {

/// The closed set of binary operators.
#[derive(Clone, Copy, Debug, PartialEq, Eq, Structural)]
pub enum Operator {
    Add,
    Sub,
    Mul,
    Div,
    Mod,
    Pow,
    Concat,
    Eq,
    Lt,
    Gt,
    NEq,
    LtEq,
    GtEq,
}

/// The canonical lexeme of an operator, as a sequence of characters.
pub open spec fn lexeme(op: Operator) -> Seq<char> {
    match op {
        Operator::Add => seq!['+'],
        Operator::Sub => seq!['-'],
        Operator::Mul => seq!['*'],
        Operator::Div => seq!['/'],
        Operator::Mod => seq!['%'],
        Operator::Pow => seq!['^'],
        Operator::Concat => seq!['+', '+'],
        Operator::Eq => seq!['=', '='],
        Operator::Lt => seq!['<'],
        Operator::Gt => seq!['>'],
        Operator::NEq => seq!['!', '='],
        Operator::LtEq => seq!['<', '='],
        Operator::GtEq => seq!['>', '='],
    }
}

/// The binding power of an operator: higher binds tighter.
pub open spec fn rank(op: Operator) -> u8 {
    match op {
        Operator::Eq => 1,
        Operator::Lt => 1,
        Operator::Gt => 1,
        Operator::NEq => 1,
        Operator::LtEq => 1,
        Operator::GtEq => 1,
        Operator::Add => 2,
        Operator::Sub => 2,
        Operator::Concat => 2,
        Operator::Mul => 3,
        Operator::Div => 3,
        Operator::Mod => 3,
        Operator::Pow => 4,
    }
}

/// Whether the parser folds an operator right-associatively.
///
/// The table itself encodes binding power only; right associativity of
/// exponentiation is a parser-side rule keyed on the operator tag, stated
/// here so that every consumer uses the same rule.
pub open spec fn is_right_assoc(op: Operator) -> bool {
    op is Pow
}

/// The comparison group: the loosest-binding operators.
pub open spec fn is_comparison(op: Operator) -> bool {
    op is Eq || op is Lt || op is Gt || op is NEq || op is LtEq || op is GtEq
}

/// The additive group, concatenation included.
pub open spec fn is_additive(op: Operator) -> bool {
    op is Add || op is Sub || op is Concat
}

/// The multiplicative group.
pub open spec fn is_multiplicative(op: Operator) -> bool {
    op is Mul || op is Div || op is Mod
}

/// What the table answers for a given lexeme: the operator that owns the
/// lexeme together with its rank, or `None` when no operator has it.
pub open spec fn table_lookup(s: Seq<char>) -> Option<(Operator, u8)> {
    if s == lexeme(Operator::Eq) {
        Some((Operator::Eq, 1u8))
    } else if s == lexeme(Operator::Lt) {
        Some((Operator::Lt, 1u8))
    } else if s == lexeme(Operator::Gt) {
        Some((Operator::Gt, 1u8))
    } else if s == lexeme(Operator::NEq) {
        Some((Operator::NEq, 1u8))
    } else if s == lexeme(Operator::LtEq) {
        Some((Operator::LtEq, 1u8))
    } else if s == lexeme(Operator::GtEq) {
        Some((Operator::GtEq, 1u8))
    } else if s == lexeme(Operator::Add) {
        Some((Operator::Add, 2u8))
    } else if s == lexeme(Operator::Sub) {
        Some((Operator::Sub, 2u8))
    } else if s == lexeme(Operator::Concat) {
        Some((Operator::Concat, 2u8))
    } else if s == lexeme(Operator::Mul) {
        Some((Operator::Mul, 3u8))
    } else if s == lexeme(Operator::Div) {
        Some((Operator::Div, 3u8))
    } else if s == lexeme(Operator::Mod) {
        Some((Operator::Mod, 3u8))
    } else if s == lexeme(Operator::Pow) {
        Some((Operator::Pow, 4u8))
    } else {
        None
    }
}

impl Operator {
    /// Looks a lexeme up in the table.
    ///
    /// Returns the operator that owns the lexeme together with its binding
    /// power, and the explicit no-match answer for every other string, so
    /// that a caller can tell "not an operator token" from a parse error.
    pub fn from_str(operator: &str) -> (r: Option<(Operator, u8)>)
        ensures
            r == table_lookup(operator@),
    {
        let n = operator.unicode_len();
        if n == 1 {
            let c = operator.get_char(0);
            proof {
                assert(operator@ =~= seq![operator@[0]]);
            }
            match c {
                '+' => Some((Operator::Add, 2)),
                '-' => Some((Operator::Sub, 2)),
                '*' => Some((Operator::Mul, 3)),
                '/' => Some((Operator::Div, 3)),
                '%' => Some((Operator::Mod, 3)),
                '^' => Some((Operator::Pow, 4)),
                '<' => Some((Operator::Lt, 1)),
                '>' => Some((Operator::Gt, 1)),
                _ => None,
            }
        } else if n == 2 {
            let c0 = operator.get_char(0);
            let c1 = operator.get_char(1);
            proof {
                assert(operator@ =~= seq![operator@[0], operator@[1]]);
            }
            if c0 == '=' && c1 == '=' {
                Some((Operator::Eq, 1))
            } else if c0 == '!' && c1 == '=' {
                Some((Operator::NEq, 1))
            } else if c0 == '<' && c1 == '=' {
                Some((Operator::LtEq, 1))
            } else if c0 == '>' && c1 == '=' {
                Some((Operator::GtEq, 1))
            } else if c0 == '+' && c1 == '+' {
                Some((Operator::Concat, 2))
            } else {
                None
            }
        } else {
            None
        }
    }

    /// The canonical lexeme of the operator, byte for byte as it appears in
    /// source text; the exact inverse of `from_str`.
    pub fn as_str(&self) -> (r: &str)
        ensures
            r@ == lexeme(*self),
    {
        match *self {
            Operator::Add => {
                proof {
                    reveal_strlit("+");
                    assert("+"@ =~= lexeme(Operator::Add));
                }
                "+"
            },
            Operator::Sub => {
                proof {
                    reveal_strlit("-");
                    assert("-"@ =~= lexeme(Operator::Sub));
                }
                "-"
            },
            Operator::Concat => {
                proof {
                    reveal_strlit("++");
                    assert("++"@ =~= lexeme(Operator::Concat));
                }
                "++"
            },
            Operator::Pow => {
                proof {
                    reveal_strlit("^");
                    assert("^"@ =~= lexeme(Operator::Pow));
                }
                "^"
            },
            Operator::Mul => {
                proof {
                    reveal_strlit("*");
                    assert("*"@ =~= lexeme(Operator::Mul));
                }
                "*"
            },
            Operator::Div => {
                proof {
                    reveal_strlit("/");
                    assert("/"@ =~= lexeme(Operator::Div));
                }
                "/"
            },
            Operator::Mod => {
                proof {
                    reveal_strlit("%");
                    assert("%"@ =~= lexeme(Operator::Mod));
                }
                "%"
            },
            Operator::Eq => {
                proof {
                    reveal_strlit("==");
                    assert("=="@ =~= lexeme(Operator::Eq));
                }
                "=="
            },
            Operator::Lt => {
                proof {
                    reveal_strlit("<");
                    assert("<"@ =~= lexeme(Operator::Lt));
                }
                "<"
            },
            Operator::Gt => {
                proof {
                    reveal_strlit(">");
                    assert(">"@ =~= lexeme(Operator::Gt));
                }
                ">"
            },
            Operator::NEq => {
                proof {
                    reveal_strlit("!=");
                    assert("!="@ =~= lexeme(Operator::NEq));
                }
                "!="
            },
            Operator::LtEq => {
                proof {
                    reveal_strlit("<=");
                    assert("<="@ =~= lexeme(Operator::LtEq));
                }
                "<="
            },
            Operator::GtEq => {
                proof {
                    reveal_strlit(">=");
                    assert(">="@ =~= lexeme(Operator::GtEq));
                }
                ">="
            },
        }
    }
}

/// Law: looking an operator's canonical lexeme up yields that operator with
/// its rank, so `as_str` followed by `from_str` is the identity on the
/// recognized set.
pub proof fn lemma_lexeme_round_trip(op: Operator)
    ensures
        table_lookup(lexeme(op)) == Some((op, rank(op))),
{
    lemma_lexeme_shapes();
}

/// The length and characters of each canonical lexeme, spelled out so that
/// two distinct lexemes can never be mistaken for one another.
pub proof fn lemma_lexeme_shapes()
    ensures
        lexeme(Operator::Add).len() == 1 && lexeme(Operator::Add)[0] == '+',
        lexeme(Operator::Sub).len() == 1 && lexeme(Operator::Sub)[0] == '-',
        lexeme(Operator::Mul).len() == 1 && lexeme(Operator::Mul)[0] == '*',
        lexeme(Operator::Div).len() == 1 && lexeme(Operator::Div)[0] == '/',
        lexeme(Operator::Mod).len() == 1 && lexeme(Operator::Mod)[0] == '%',
        lexeme(Operator::Pow).len() == 1 && lexeme(Operator::Pow)[0] == '^',
        lexeme(Operator::Lt).len() == 1 && lexeme(Operator::Lt)[0] == '<',
        lexeme(Operator::Gt).len() == 1 && lexeme(Operator::Gt)[0] == '>',
        lexeme(Operator::Concat).len() == 2 && lexeme(Operator::Concat)[0] == '+' && lexeme(
            Operator::Concat,
        )[1] == '+',
        lexeme(Operator::Eq).len() == 2 && lexeme(Operator::Eq)[0] == '=' && lexeme(Operator::Eq)[1]
            == '=',
        lexeme(Operator::NEq).len() == 2 && lexeme(Operator::NEq)[0] == '!' && lexeme(
            Operator::NEq,
        )[1] == '=',
        lexeme(Operator::LtEq).len() == 2 && lexeme(Operator::LtEq)[0] == '<' && lexeme(
            Operator::LtEq,
        )[1] == '=',
        lexeme(Operator::GtEq).len() == 2 && lexeme(Operator::GtEq)[0] == '>' && lexeme(
            Operator::GtEq,
        )[1] == '=',
{
}

/// Law: the table reports no match exactly for the strings that are no
/// operator's canonical lexeme; a recognized lexeme never falls through.
pub proof fn lemma_unrecognized_no_match(s: Seq<char>)
    ensures
        table_lookup(s) is None <==> (forall|op: Operator| lexeme(op) != s),
{
    if table_lookup(s) is None {
        assert forall|op: Operator| lexeme(op) != s by {
            match op {
                Operator::Add => {},
                Operator::Sub => {},
                Operator::Mul => {},
                Operator::Div => {},
                Operator::Mod => {},
                Operator::Pow => {},
                Operator::Concat => {},
                Operator::Eq => {},
                Operator::Lt => {},
                Operator::Gt => {},
                Operator::NEq => {},
                Operator::LtEq => {},
                Operator::GtEq => {},
            }
        }
    }
}

/// Law: binding powers are strictly ordered across the groups. Every
/// comparison binds looser than every additive operator, every additive
/// operator looser than every multiplicative one, and every multiplicative
/// operator looser than exponentiation.
pub proof fn lemma_rank_groups_ordered()
    ensures
        forall|a: Operator, b: Operator|
            is_comparison(a) && is_additive(b) ==> #[trigger] rank(a) < #[trigger] rank(b),
        forall|a: Operator, b: Operator|
            is_additive(a) && is_multiplicative(b) ==> #[trigger] rank(a) < #[trigger] rank(b),
        forall|a: Operator| is_multiplicative(a) ==> #[trigger] rank(a) < rank(Operator::Pow),
{
}

} // verus!
