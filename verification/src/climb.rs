//! Precedence climbing: folding a flat operand/operator stream into
//! `Binary` nodes.
//!
//! Given a left operand and a minimum rank, the climb peeks the next
//! operator lexeme and looks its rank up in the table. A rank below the
//! minimum stops the climb; otherwise the operator is consumed, the right
//! operand is parsed with minimum rank one higher (or equal, for the
//! right-associative `Pow`), and the two sides fold into a `Binary` node
//! positioned at the operator's token. A lexeme that is no operator is a
//! hard error, answered with the explicit no-parse result.

use crate::ast::{Expression, ExpressionNodeV, ExpressionV, expr_view, rc_alias};
use crate::operator::{Operator, is_right_assoc, table_lookup};
use crate::source::Pos;
use std::rc::Rc;
use vstd::prelude::*;

verus! {

/// One step of an infix tail: an operator lexeme exactly as the lexer
/// handed it over, the operand that follows it, and the operator's own
/// source position.
pub struct InfixToken {
    pub lexeme: String,
    pub operand: Rc<Expression>,
    pub pos: Pos,
}

/// Ghost mirror of `InfixToken`.
pub struct InfixTokenV {
    pub lexeme: Seq<char>,
    pub operand: ExpressionV,
    pub pos: Pos,
}

impl View for InfixToken {
    type V = InfixTokenV;

    open spec fn view(&self) -> InfixTokenV {
        InfixTokenV { lexeme: self.lexeme@, operand: expr_view(*self.operand), pos: self.pos }
    }
}

/// View of an infix token sequence.
pub open spec fn tokens_view(v: Seq<InfixToken>) -> Seq<InfixTokenV> {
    Seq::new(v.len(), |i: int| v[i]@)
}

/// Outcome of one climb in the model.
pub enum ClimbResult {
    /// The recursion bound ran out; never reached with enough fuel.
    OutOfFuel,
    /// The lexeme at this index is no operator: a hard parse error.
    NotAnOperator(int),
    /// The folded expression, and the index the climb stopped at.
    Parsed(ExpressionV, int),
}

/// The precedence-climbing fold itself, as a total function of the model.
///
/// `fuel` bounds the recursion; `lemma_climb_fuel` shows that
/// `2 * (toks.len() - i) + 1` is always enough.
pub open spec fn climb_spec(
    acc: ExpressionV,
    toks: Seq<InfixTokenV>,
    i: int,
    min: int,
    fuel: nat,
) -> ClimbResult
    decreases fuel,
{
    if i >= toks.len() {
        ClimbResult::Parsed(acc, i)
    } else if fuel == 0 {
        ClimbResult::OutOfFuel
    } else {
        match table_lookup(toks[i].lexeme) {
            Option::None => ClimbResult::NotAnOperator(i),
            Option::Some((op, p)) => {
                if (p as int) < min {
                    ClimbResult::Parsed(acc, i)
                } else {
                    let next_min = if is_right_assoc(op) {
                        p as int
                    } else {
                        p as int + 1
                    };
                    match climb_spec(toks[i].operand, toks, i + 1, next_min, (fuel - 1) as nat) {
                        ClimbResult::OutOfFuel => ClimbResult::OutOfFuel,
                        ClimbResult::NotAnOperator(j) => ClimbResult::NotAnOperator(j),
                        ClimbResult::Parsed(rhs, j) => climb_spec(
                            ExpressionV {
                                node: ExpressionNodeV::Binary(Box::new(acc), op, Box::new(rhs)),
                                pos: toks[i].pos,
                            },
                            toks,
                            j,
                            min,
                            (fuel - 1) as nat,
                        ),
                    }
                }
            },
        }
    }
}

/// Wherever the climb parses, it stops between its start and the end of
/// the input.
pub proof fn lemma_climb_bounds(
    acc: ExpressionV,
    toks: Seq<InfixTokenV>,
    i: int,
    min: int,
    fuel: nat,
)
    requires
        0 <= i <= toks.len(),
    ensures
        climb_spec(acc, toks, i, min, fuel) matches ClimbResult::Parsed(e, j) ==> i <= j
            <= toks.len(),
    decreases fuel,
{
    if i < toks.len() && fuel > 0 {
        match table_lookup(toks[i].lexeme) {
            Option::None => {},
            Option::Some((op, p)) => {
                if (p as int) >= min {
                    let next_min = if is_right_assoc(op) {
                        p as int
                    } else {
                        p as int + 1
                    };
                    lemma_climb_bounds(toks[i].operand, toks, i + 1, next_min, (fuel - 1) as nat);
                    match climb_spec(toks[i].operand, toks, i + 1, next_min, (fuel - 1) as nat) {
                        ClimbResult::Parsed(rhs, j) => {
                            lemma_climb_bounds(
                                ExpressionV {
                                    node: ExpressionNodeV::Binary(Box::new(acc), op, Box::new(rhs)),
                                    pos: toks[i].pos,
                                },
                                toks,
                                j,
                                min,
                                (fuel - 1) as nat,
                            );
                        },
                        _ => {},
                    }
                }
            },
        }
    }
}

/// With fuel `2 * (toks.len() - i) + 1` the climb never runs out: every
/// descent consumes at least one token.
pub proof fn lemma_climb_fuel(
    acc: ExpressionV,
    toks: Seq<InfixTokenV>,
    i: int,
    min: int,
    fuel: nat,
)
    requires
        0 <= i <= toks.len(),
        fuel >= 2 * (toks.len() - i) + 1,
    ensures
        !(climb_spec(acc, toks, i, min, fuel) is OutOfFuel),
    decreases fuel,
{
    if i < toks.len() {
        match table_lookup(toks[i].lexeme) {
            Option::None => {},
            Option::Some((op, p)) => {
                if (p as int) >= min {
                    let next_min = if is_right_assoc(op) {
                        p as int
                    } else {
                        p as int + 1
                    };
                    lemma_climb_fuel(toks[i].operand, toks, i + 1, next_min, (fuel - 1) as nat);
                    lemma_climb_bounds(toks[i].operand, toks, i + 1, next_min, (fuel - 1) as nat);
                    match climb_spec(toks[i].operand, toks, i + 1, next_min, (fuel - 1) as nat) {
                        ClimbResult::Parsed(rhs, j) => {
                            lemma_climb_fuel(
                                ExpressionV {
                                    node: ExpressionNodeV::Binary(Box::new(acc), op, Box::new(rhs)),
                                    pos: toks[i].pos,
                                },
                                toks,
                                j,
                                min,
                                (fuel - 1) as nat,
                            );
                        },
                        _ => {},
                    }
                }
            },
        }
    }
}

/// Law: a climb reports a lexeme as not-an-operator only when the table
/// really has no entry for it; whenever every lexeme is recognized it
/// parses; and at a minimum rank at or below the loosest table rank it
/// never stops early, so a successful top-level climb consumes the whole
/// tail.
pub proof fn lemma_climb_consumes_all(
    acc: ExpressionV,
    toks: Seq<InfixTokenV>,
    i: int,
    min: int,
    fuel: nat,
)
    requires
        0 <= i <= toks.len(),
        fuel >= 2 * (toks.len() - i) + 1,
    ensures
        climb_spec(acc, toks, i, min, fuel) matches ClimbResult::NotAnOperator(j) ==> i <= j
            < toks.len() && table_lookup(toks[j].lexeme) is None,
        (forall|k: int| i <= k < toks.len() ==> !(table_lookup(toks[k].lexeme) is None))
            ==> climb_spec(acc, toks, i, min, fuel) is Parsed,
        min <= 1 ==> (climb_spec(acc, toks, i, min, fuel) matches ClimbResult::Parsed(e, j) ==> j
            == toks.len()),
        climb_spec(acc, toks, i, min, fuel) matches ClimbResult::Parsed(e, j) ==> (forall|k: int|
            i <= k < j ==> !(table_lookup(toks[k].lexeme) is None)),
    decreases fuel,
{
    if i < toks.len() {
        match table_lookup(toks[i].lexeme) {
            Option::None => {},
            Option::Some((op, p)) => {
                if (p as int) >= min {
                    let next_min = if is_right_assoc(op) {
                        p as int
                    } else {
                        p as int + 1
                    };
                    lemma_climb_consumes_all(
                        toks[i].operand,
                        toks,
                        i + 1,
                        next_min,
                        (fuel - 1) as nat,
                    );
                    lemma_climb_bounds(toks[i].operand, toks, i + 1, next_min, (fuel - 1) as nat);
                    match climb_spec(toks[i].operand, toks, i + 1, next_min, (fuel - 1) as nat) {
                        ClimbResult::Parsed(rhs, j) => {
                            lemma_climb_consumes_all(
                                ExpressionV {
                                    node: ExpressionNodeV::Binary(Box::new(acc), op, Box::new(rhs)),
                                    pos: toks[i].pos,
                                },
                                toks,
                                j,
                                min,
                                (fuel - 1) as nat,
                            );
                        },
                        _ => {},
                    }
                }
            },
        }
    }
}

/// What a whole parse of an infix tail means in the model: the climb from
/// the first operand, at the loosest minimum rank, with enough fuel.
pub open spec fn climb_all(first: ExpressionV, toks: Seq<InfixTokenV>) -> Option<ExpressionV> {
    match climb_spec(first, toks, 0, 0, (2 * toks.len() + 1) as nat) {
        ClimbResult::Parsed(e, j) => Option::Some(e),
        ClimbResult::NotAnOperator(j) => Option::None,
        ClimbResult::OutOfFuel => Option::None,
    }
}

fn climb_rec(
    acc: Rc<Expression>,
    toks: &Vec<InfixToken>,
    i: usize,
    min: u8,
    Ghost(fuel): Ghost<nat>,
) -> (r: Option<(Rc<Expression>, usize)>)
    requires
        i <= toks@.len(),
        !(climb_spec((*acc)@, tokens_view(toks@), i as int, min as int, fuel) is OutOfFuel),
    ensures
        match climb_spec((*acc)@, tokens_view(toks@), i as int, min as int, fuel) {
            ClimbResult::Parsed(e, j) => r matches Some((re, rj)) && (*re)@ == e && rj == j,
            ClimbResult::NotAnOperator(j) => r is None,
            ClimbResult::OutOfFuel => false,
        },
    decreases fuel,
{
    let ghost tv = tokens_view(toks@);
    if i >= toks.len() {
        return Some((acc, i));
    }
    let tok = &toks[i];
    match Operator::from_str(tok.lexeme.as_str()) {
        Option::None => None,
        Option::Some((op, p)) => {
            if p < min {
                Some((acc, i))
            } else {
                let next_min = match op {
                    Operator::Pow => p,
                    _ => p + 1,
                };
                let rhs_start = rc_alias(&tok.operand);
                proof {
                    lemma_climb_bounds(
                        tv[i as int].operand,
                        tv,
                        i as int + 1,
                        next_min as int,
                        (fuel - 1) as nat,
                    );
                }
                match climb_rec(rhs_start, toks, i + 1, next_min, Ghost((fuel - 1) as nat)) {
                    Option::None => None,
                    Option::Some((rhs, j)) => {
                        let folded = Rc::new(Expression::binary(acc, op, rhs, tok.pos));
                        climb_rec(folded, toks, j, min, Ghost((fuel - 1) as nat))
                    },
                }
            }
        },
    }
}

/// Parses one infix tail by precedence climbing.
///
/// `first` is the already-built leftmost operand; each token carries the
/// next operator lexeme and the operand after it. The result is the fold
/// that `climb_all` describes: `None` exactly when some lexeme is not a
/// recognized operator, and otherwise the expression assembled with every
/// rank and associativity respected.
pub fn parse_expression(first: Rc<Expression>, toks: &Vec<InfixToken>) -> (r: Option<
    Rc<Expression>,
>)
    ensures
        match climb_all((*first)@, tokens_view(toks@)) {
            Option::Some(e) => r matches Some(re) && (*re)@ == e,
            Option::None => r is None,
        },
        r is Some <==> (forall|k: int|
            0 <= k < toks@.len() ==> !(table_lookup(toks@[k].lexeme@) is None)),
{
    let ghost tv = tokens_view(toks@);
    let ghost fuel = (2 * tv.len() + 1) as nat;
    proof {
        lemma_climb_fuel((*first)@, tv, 0, 0, fuel);
        lemma_climb_consumes_all((*first)@, tv, 0, 0, fuel);
        let res = climb_spec((*first)@, tv, 0, 0, fuel);
        if res is Parsed {
            assert forall|k: int|
                0 <= k < toks@.len() implies !(table_lookup(toks@[k].lexeme@) is None) by {
                assert(tv[k].lexeme == toks@[k].lexeme@);
                assert(!(table_lookup(tv[k].lexeme) is None));
            }
        } else {
            let j = res->NotAnOperator_0;
            assert(table_lookup(tv[j].lexeme) is None);
            assert(tv[j].lexeme == toks@[j].lexeme@);
        }
    }
    match climb_rec(first, toks, 0, 0, Ghost(fuel)) {
        Option::Some((e, _consumed)) => Option::Some(e),
        Option::None => Option::None,
    }
}

} // verus!
