//! The node taxonomy: tagged variants for statements and expressions.
//!
//! Every node pairs a variant payload with a source position. Recursive
//! sub-expressions are shared, reference-counted and immutable; statement
//! lists are exclusively owned, ordered sequences whose insertion order is
//! execution order and must survive every transformation.
//!
//! Each executable type has a ghost mirror (`StatementV`, `ExpressionV`,
//! ...) over `Seq` and mathematical values; the view functions below relate
//! the two, and every contract in the crate speaks over the mirrors.

use crate::operator::Operator;
use crate::source::Pos;
use std::rc::Rc;
use vstd::prelude::*;

verus! {

/// A declared type as it appears in source text.
///
/// What a type means is the business of semantic analysis; the syntax tree
/// only records its written name and hands it through.
#[derive(Debug)]
pub struct Type {
    pub name: String,
}

impl View for Type {
    type V = Seq<char>;

    open spec fn view(&self) -> Seq<char> {
        self.name@
    }
}

impl Type {
    /// Records a type name.
    pub fn new(name: String) -> (t: Type)
        ensures
            t@ == name@,
    {
        Type { name }
    }
}

/// The payload of one statement.
///
/// Statements never nest statements directly: the only recursion runs
/// through an `Expression` payload (a `Block` expression holds statements),
/// which keeps block scoping and sequencing unambiguous.
#[derive(Debug)]
pub enum StatementNode {
    Expression(Expression),
    Variable(Type, String, Option<Expression>),
    Assignment(Expression, Expression),
    Return(Option<Rc<Expression>>),
    Import(String, Vec<String>),
    Implement(Expression, Vec<String>, Expression),
    Break,
    Skip,
}

/// One statement: a payload paired with the position it was parsed at.
#[derive(Debug)]
pub struct Statement {
    pub node: StatementNode,
    pub pos: Pos,
}

/// The payload of one expression.
///
/// `Float` carries the IEEE 754 bit pattern of the literal: the tree only
/// stores the value and hands it through unchanged, so the bits are the
/// faithful representation at this layer.
#[derive(Debug)]
#[allow(non_camel_case_types)]
pub enum ExpressionNode {
    Int(u64),
    Float(u64),
    Str(String),
    Char(char),
    Bool(bool),
    Unwrap(Rc<Expression>),
    Neg(Rc<Expression>),
    Identifier(String),
    Binary(Rc<Expression>, Operator, Rc<Expression>),
    Block(Vec<Statement>),
    Cast(Rc<Expression>, Type),
    Array(Vec<Expression>),
    Index(Rc<Expression>, Rc<Expression>),
    Function(Vec<(String, Type)>, Type, Rc<Expression>, Vec<String>),
    Call(Rc<Expression>, Vec<Expression>),
    If(Rc<Expression>, Rc<Expression>, Option<Vec<(Option<Expression>, Expression, Pos)>>),
    Module(Rc<Expression>),
    While(Rc<Expression>, Rc<Expression>),
    Struct(String, Vec<(String, Type)>, Vec<String>),
    Initialization(Rc<Expression>, Vec<(String, Expression)>),
    Extern(Type, Option<String>),
    EOF,
    Empty,
}

/// One expression: a payload paired with the position it was parsed at.
#[derive(Debug)]
pub struct Expression {
    pub node: ExpressionNode,
    pub pos: Pos,
}

/// Ghost mirror of `StatementNode`.
pub enum StatementNodeV {
    Expression(ExpressionV),
    Variable(Seq<char>, Seq<char>, Option<ExpressionV>),
    Assignment(ExpressionV, ExpressionV),
    Return(Option<Box<ExpressionV>>),
    Import(Seq<char>, Seq<Seq<char>>),
    Implement(ExpressionV, Seq<Seq<char>>, ExpressionV),
    Break,
    Skip,
}

/// Ghost mirror of `Statement`.
pub struct StatementV {
    pub node: StatementNodeV,
    pub pos: Pos,
}

/// Ghost mirror of `ExpressionNode`.
#[allow(non_camel_case_types)]
pub enum ExpressionNodeV {
    Int(u64),
    Float(u64),
    Str(Seq<char>),
    Char(char),
    Bool(bool),
    Unwrap(Box<ExpressionV>),
    Neg(Box<ExpressionV>),
    Identifier(Seq<char>),
    Binary(Box<ExpressionV>, Operator, Box<ExpressionV>),
    Block(Seq<StatementV>),
    Cast(Box<ExpressionV>, Seq<char>),
    Array(Seq<ExpressionV>),
    Index(Box<ExpressionV>, Box<ExpressionV>),
    Function(Seq<(Seq<char>, Seq<char>)>, Seq<char>, Box<ExpressionV>, Seq<Seq<char>>),
    Call(Box<ExpressionV>, Seq<ExpressionV>),
    If(Box<ExpressionV>, Box<ExpressionV>, Option<Seq<(Option<ExpressionV>, ExpressionV, Pos)>>),
    Module(Box<ExpressionV>),
    While(Box<ExpressionV>, Box<ExpressionV>),
    Struct(Seq<char>, Seq<(Seq<char>, Seq<char>)>, Seq<Seq<char>>),
    Initialization(Box<ExpressionV>, Seq<(Seq<char>, ExpressionV)>),
    Extern(Seq<char>, Option<Seq<char>>),
    EOF,
    Empty,
}

/// Ghost mirror of `Expression`.
pub struct ExpressionV {
    pub node: ExpressionNodeV,
    pub pos: Pos,
}

/// View of a list of plain names.
pub open spec fn names_view(v: Seq<String>) -> Seq<Seq<char>> {
    Seq::new(v.len(), |i: int| v[i]@)
}

/// View of a typed parameter or field list.
pub open spec fn params_view(v: Seq<(String, Type)>) -> Seq<(Seq<char>, Seq<char>)> {
    Seq::new(v.len(), |i: int| (v[i].0@, v[i].1@))
}

/// View of an ordered statement sequence; index `i` of the result is the
/// view of statement `i`, so insertion order is preserved exactly.
pub open spec fn stmts_view(v: Seq<Statement>) -> Seq<StatementV>
    decreases v,
{
    if v.len() == 0 {
        Seq::empty()
    } else {
        seq![stmt_view(v.first())] + stmts_view(v.drop_first())
    }
}

/// View of an ordered expression sequence.
pub open spec fn exprs_view(v: Seq<Expression>) -> Seq<ExpressionV>
    decreases v,
{
    if v.len() == 0 {
        Seq::empty()
    } else {
        seq![expr_view(v.first())] + exprs_view(v.drop_first())
    }
}

/// View of an optional expression.
pub open spec fn opt_expr_view(o: Option<Expression>) -> Option<ExpressionV>
    decreases o,
{
    match o {
        Option::Some(e) => Option::Some(expr_view(e)),
        Option::None => Option::None,
    }
}

/// View of the else-if/else clause list of an `If` expression.
pub open spec fn clauses_view(v: Seq<(Option<Expression>, Expression, Pos)>) -> Seq<
    (Option<ExpressionV>, ExpressionV, Pos),
>
    decreases v,
{
    if v.len() == 0 {
        Seq::empty()
    } else {
        seq![(opt_expr_view(v.first().0), expr_view(v.first().1), v.first().2)] + clauses_view(
            v.drop_first(),
        )
    }
}

/// View of the field/value list of an `Initialization` expression.
pub open spec fn inits_view(v: Seq<(String, Expression)>) -> Seq<(Seq<char>, ExpressionV)>
    decreases v,
{
    if v.len() == 0 {
        Seq::empty()
    } else {
        seq![(v.first().0@, expr_view(v.first().1))] + inits_view(v.drop_first())
    }
}

/// View of a statement payload.
pub open spec fn stmt_node_view(n: StatementNode) -> StatementNodeV
    decreases n,
{
    match n {
        StatementNode::Expression(e) => StatementNodeV::Expression(expr_view(e)),
        StatementNode::Variable(t, name, init) => StatementNodeV::Variable(
            t@,
            name@,
            opt_expr_view(init),
        ),
        StatementNode::Assignment(target, value) => StatementNodeV::Assignment(
            expr_view(target),
            expr_view(value),
        ),
        StatementNode::Return(o) => StatementNodeV::Return(
            match o {
                Option::Some(e) => Option::Some(Box::new(expr_view(*e))),
                Option::None => Option::None,
            },
        ),
        StatementNode::Import(path, names) => StatementNodeV::Import(path@, names_view(names@)),
        StatementNode::Implement(target, traits, body) => StatementNodeV::Implement(
            expr_view(target),
            names_view(traits@),
            expr_view(body),
        ),
        StatementNode::Break => StatementNodeV::Break,
        StatementNode::Skip => StatementNodeV::Skip,
    }
}

/// View of a statement.
pub open spec fn stmt_view(s: Statement) -> StatementV
    decreases s,
{
    StatementV { node: stmt_node_view(s.node), pos: s.pos }
}

/// View of an expression payload.
pub open spec fn expr_node_view(n: ExpressionNode) -> ExpressionNodeV
    decreases n,
{
    match n {
        ExpressionNode::Int(v) => ExpressionNodeV::Int(v),
        ExpressionNode::Float(bits) => ExpressionNodeV::Float(bits),
        ExpressionNode::Str(s) => ExpressionNodeV::Str(s@),
        ExpressionNode::Char(c) => ExpressionNodeV::Char(c),
        ExpressionNode::Bool(b) => ExpressionNodeV::Bool(b),
        ExpressionNode::Unwrap(e) => ExpressionNodeV::Unwrap(Box::new(expr_view(*e))),
        ExpressionNode::Neg(e) => ExpressionNodeV::Neg(Box::new(expr_view(*e))),
        ExpressionNode::Identifier(name) => ExpressionNodeV::Identifier(name@),
        ExpressionNode::Binary(l, op, r) => ExpressionNodeV::Binary(
            Box::new(expr_view(*l)),
            op,
            Box::new(expr_view(*r)),
        ),
        ExpressionNode::Block(stmts) => ExpressionNodeV::Block(stmts_view(stmts@)),
        ExpressionNode::Cast(e, t) => ExpressionNodeV::Cast(Box::new(expr_view(*e)), t@),
        ExpressionNode::Array(elems) => ExpressionNodeV::Array(exprs_view(elems@)),
        ExpressionNode::Index(e, idx) => ExpressionNodeV::Index(
            Box::new(expr_view(*e)),
            Box::new(expr_view(*idx)),
        ),
        ExpressionNode::Function(params, ret, body, attrs) => ExpressionNodeV::Function(
            params_view(params@),
            ret@,
            Box::new(expr_view(*body)),
            names_view(attrs@),
        ),
        ExpressionNode::Call(callee, args) => ExpressionNodeV::Call(
            Box::new(expr_view(*callee)),
            exprs_view(args@),
        ),
        ExpressionNode::If(cond, then, clauses) => ExpressionNodeV::If(
            Box::new(expr_view(*cond)),
            Box::new(expr_view(*then)),
            match clauses {
                Option::Some(v) => Option::Some(clauses_view(v@)),
                Option::None => Option::None,
            },
        ),
        ExpressionNode::Module(body) => ExpressionNodeV::Module(Box::new(expr_view(*body))),
        ExpressionNode::While(cond, body) => ExpressionNodeV::While(
            Box::new(expr_view(*cond)),
            Box::new(expr_view(*body)),
        ),
        ExpressionNode::Struct(name, fields, attrs) => ExpressionNodeV::Struct(
            name@,
            params_view(fields@),
            names_view(attrs@),
        ),
        ExpressionNode::Initialization(target, fields) => ExpressionNodeV::Initialization(
            Box::new(expr_view(*target)),
            inits_view(fields@),
        ),
        ExpressionNode::Extern(t, linkage) => ExpressionNodeV::Extern(
            t@,
            match linkage {
                Option::Some(s) => Option::Some(s@),
                Option::None => Option::None,
            },
        ),
        ExpressionNode::EOF => ExpressionNodeV::EOF,
        ExpressionNode::Empty => ExpressionNodeV::Empty,
    }
}

/// View of an expression.
pub open spec fn expr_view(e: Expression) -> ExpressionV
    decreases e,
{
    ExpressionV { node: expr_node_view(e.node), pos: e.pos }
}

impl View for Statement {
    type V = StatementV;

    open spec fn view(&self) -> StatementV {
        stmt_view(*self)
    }
}

impl View for Expression {
    type V = ExpressionV;

    open spec fn view(&self) -> ExpressionV {
        expr_view(*self)
    }
}

impl Statement {
    /// Pairs a statement payload with its position. Construction never
    /// fails and validates nothing: a malformed payload is the caller's
    /// programming error, not a runtime error of this crate.
    pub fn new(node: StatementNode, pos: Pos) -> (s: Statement)
        ensures
            s.node == node,
            s.pos == pos,
            s@ == (StatementV { node: stmt_node_view(node), pos }),
    {
        Statement { node, pos }
    }
}

impl Expression {
    /// Pairs an expression payload with its position. Construction never
    /// fails and validates nothing.
    pub fn new(node: ExpressionNode, pos: Pos) -> (e: Expression)
        ensures
            e.node == node,
            e.pos == pos,
            e@ == (ExpressionV { node: expr_node_view(node), pos }),
    {
        Expression { node, pos }
    }

    /// Builds a `Binary` node over two already-built sub-expressions.
    ///
    /// The operands are taken as shared handles: the new node aliases them
    /// instead of copying, and their values are embedded in the result
    /// unchanged.
    pub fn binary(left: Rc<Expression>, op: Operator, right: Rc<Expression>, pos: Pos) -> (e:
        Expression)
        ensures
            e.node == ExpressionNode::Binary(left, op, right),
            e.pos == pos,
            e@.node == ExpressionNodeV::Binary(Box::new((*left)@), op, Box::new((*right)@)),
    {
        Expression { node: ExpressionNode::Binary(left, op, right), pos }
    }
}

/// The view of an expression sequence lists the view of element `i` at
/// index `i`.
pub proof fn lemma_exprs_view_index(v: Seq<Expression>)
    ensures
        exprs_view(v).len() == v.len(),
        forall|i: int| 0 <= i < v.len() ==> exprs_view(v)[i] == expr_view(v[i]),
    decreases v,
{
    if v.len() > 0 {
        lemma_exprs_view_index(v.drop_first());
        assert forall|i: int| 0 <= i < v.len() implies exprs_view(v)[i] == expr_view(v[i]) by {
            if i > 0 {
                assert(v.drop_first()[i - 1] == v[i]);
            }
        }
    }
}

/// The view of a clause list keeps each clause at its index.
pub proof fn lemma_clauses_view_index(v: Seq<(Option<Expression>, Expression, Pos)>)
    ensures
        clauses_view(v).len() == v.len(),
        forall|i: int| #![trigger clauses_view(v)[i]]
            0 <= i < v.len() ==> clauses_view(v)[i] == (
            opt_expr_view(v[i].0),
            expr_view(v[i].1),
            v[i].2,
            ),
    decreases v,
{
    if v.len() > 0 {
        lemma_clauses_view_index(v.drop_first());
        assert forall|i: int|
            0 <= i < v.len() implies #[trigger] clauses_view(v)[i] == (
            opt_expr_view(v[i].0),
            expr_view(v[i].1),
            v[i].2,
        ) by {
            if i > 0 {
                assert(v.drop_first()[i - 1] == v[i]);
            }
        }
    }
}

/// The view of a field/value list keeps each pair at its index.
pub proof fn lemma_inits_view_index(v: Seq<(String, Expression)>)
    ensures
        inits_view(v).len() == v.len(),
        forall|i: int| #![trigger inits_view(v)[i]]
            0 <= i < v.len() ==> inits_view(v)[i] == (v[i].0@, expr_view(v[i].1)),
    decreases v,
{
    if v.len() > 0 {
        lemma_inits_view_index(v.drop_first());
        assert forall|i: int|
            0 <= i < v.len() implies #[trigger] inits_view(v)[i] == (
            v[i].0@,
            expr_view(v[i].1),
        ) by {
            if i > 0 {
                assert(v.drop_first()[i - 1] == v[i]);
            }
        }
    }
}

/// Relies on `Rc::clone`: the returned handle points to the same allocation
/// as the argument, so it carries the very same expression value.
#[verifier::external_body]
pub(crate) fn rc_alias(e: &Rc<Expression>) -> (r: Rc<Expression>)
    ensures
        r == *e,
{
    Rc::clone(e)
}

impl Clone for Type {
    /// A clone records the same name.
    fn clone(&self) -> (r: Self)
        ensures
            r == *self,
    {
        Type { name: self.name.clone() }
    }
}

/// Copies a list of plain names, element for element.
fn clone_names(v: &Vec<String>) -> (r: Vec<String>)
    ensures
        r@ == v@,
{
    let mut r: Vec<String> = Vec::new();
    let mut i: usize = 0;
    while i < v.len()
        invariant
            i <= v@.len(),
            r@.len() == i,
            forall|j: int| 0 <= j < i ==> r@[j] == v@[j],
        decreases v@.len() - i,
    {
        r.push(v[i].clone());
        i = i + 1;
    }
    proof {
        assert(r@ =~= v@);
    }
    r
}

/// Copies a typed parameter or field list, pair for pair.
fn clone_params(v: &Vec<(String, Type)>) -> (r: Vec<(String, Type)>)
    ensures
        r@ == v@,
{
    let mut r: Vec<(String, Type)> = Vec::new();
    let mut i: usize = 0;
    while i < v.len()
        invariant
            i <= v@.len(),
            r@.len() == i,
            forall|j: int| 0 <= j < i ==> r@[j] == v@[j],
        decreases v@.len() - i,
    {
        let name = v[i].0.clone();
        let ty = v[i].1.clone();
        r.push((name, ty));
        i = i + 1;
    }
    proof {
        assert(r@ =~= v@);
    }
    r
}

/// Copies an ordered statement sequence; order and views carry over exactly.
fn clone_stmts(v: &Vec<Statement>) -> (r: Vec<Statement>)
    ensures
        stmts_view(r@) == stmts_view(v@),
    decreases v@,
{
    let mut r: Vec<Statement> = Vec::new();
    let mut i: usize = 0;
    while i < v.len()
        invariant
            i <= v@.len(),
            r@.len() == i,
            forall|j: int| 0 <= j < i ==> r@[j]@ == v@[j]@,
        decreases v@.len() - i,
    {
        r.push(v[i].clone());
        i = i + 1;
    }
    proof {
        lemma_statement_order_preserved(r@);
        lemma_statement_order_preserved(v@);
        assert(stmts_view(r@) =~= stmts_view(v@));
    }
    r
}

/// Copies an ordered expression sequence; order and views carry over exactly.
fn clone_exprs(v: &Vec<Expression>) -> (r: Vec<Expression>)
    ensures
        exprs_view(r@) == exprs_view(v@),
    decreases v@,
{
    let mut r: Vec<Expression> = Vec::new();
    let mut i: usize = 0;
    while i < v.len()
        invariant
            i <= v@.len(),
            r@.len() == i,
            forall|j: int| 0 <= j < i ==> r@[j]@ == v@[j]@,
        decreases v@.len() - i,
    {
        r.push(v[i].clone());
        i = i + 1;
    }
    proof {
        lemma_exprs_view_index(r@);
        lemma_exprs_view_index(v@);
        assert(exprs_view(r@) =~= exprs_view(v@));
    }
    r
}

/// Copies the clause list of an `If`, keeping the literal clause order.
fn clone_clauses(v: &Vec<(Option<Expression>, Expression, Pos)>) -> (r: Vec<
    (Option<Expression>, Expression, Pos),
>)
    ensures
        clauses_view(r@) == clauses_view(v@),
    decreases v@,
{
    let mut r: Vec<(Option<Expression>, Expression, Pos)> = Vec::new();
    let mut i: usize = 0;
    while i < v.len()
        invariant
            i <= v@.len(),
            r@.len() == i,
            forall|j: int| #![all_triggers]
                0 <= j < i ==> opt_expr_view(r@[j].0) == opt_expr_view(v@[j].0) && r@[j].1@
                    == v@[j].1@ && r@[j].2 == v@[j].2,
        decreases v@.len() - i,
    {
        let guard = match &v[i].0 {
            Option::Some(e) => Option::Some(e.clone()),
            Option::None => Option::None,
        };
        let body = v[i].1.clone();
        let pos = v[i].2;
        r.push((guard, body, pos));
        i = i + 1;
    }
    proof {
        lemma_clauses_view_index(r@);
        lemma_clauses_view_index(v@);
        assert(clauses_view(r@) =~= clauses_view(v@));
    }
    r
}

/// Copies the field/value list of an `Initialization`, keeping field order.
fn clone_inits(v: &Vec<(String, Expression)>) -> (r: Vec<(String, Expression)>)
    ensures
        inits_view(r@) == inits_view(v@),
    decreases v@,
{
    let mut r: Vec<(String, Expression)> = Vec::new();
    let mut i: usize = 0;
    while i < v.len()
        invariant
            i <= v@.len(),
            r@.len() == i,
            forall|j: int| #![all_triggers]
                0 <= j < i ==> r@[j].0 == v@[j].0 && r@[j].1@ == v@[j].1@,
        decreases v@.len() - i,
    {
        let name = v[i].0.clone();
        let value = v[i].1.clone();
        r.push((name, value));
        i = i + 1;
    }
    proof {
        lemma_inits_view_index(r@);
        lemma_inits_view_index(v@);
        assert(inits_view(r@) =~= inits_view(v@));
    }
    r
}

impl Clone for StatementNode {
    /// A clone keeps the variant and the whole payload: its view is the view
    /// of the original.
    fn clone(&self) -> (r: Self)
        ensures
            stmt_node_view(r) == stmt_node_view(*self),
        decreases *self,
    {
        match self {
            StatementNode::Expression(e) => StatementNode::Expression(e.clone()),
            StatementNode::Variable(t, name, init) => StatementNode::Variable(
                t.clone(),
                name.clone(),
                match init {
                    Option::Some(e) => Option::Some(e.clone()),
                    Option::None => Option::None,
                },
            ),
            StatementNode::Assignment(target, value) => StatementNode::Assignment(
                target.clone(),
                value.clone(),
            ),
            StatementNode::Return(o) => StatementNode::Return(
                match o {
                    Option::Some(e) => Option::Some(rc_alias(e)),
                    Option::None => Option::None,
                },
            ),
            StatementNode::Import(path, names) => StatementNode::Import(
                path.clone(),
                clone_names(names),
            ),
            StatementNode::Implement(target, traits, body) => StatementNode::Implement(
                target.clone(),
                clone_names(traits),
                body.clone(),
            ),
            StatementNode::Break => StatementNode::Break,
            StatementNode::Skip => StatementNode::Skip,
        }
    }
}

impl Clone for Statement {
    /// A clone of a statement has the view of the original.
    fn clone(&self) -> (r: Self)
        ensures
            r@ == (*self)@,
        decreases *self,
    {
        Statement { node: self.node.clone(), pos: self.pos }
    }
}

impl Clone for ExpressionNode {
    /// A clone keeps the variant and the whole payload: its view is the view
    /// of the original. Shared children are aliased, not copied; owned
    /// sequences are copied in order.
    fn clone(&self) -> (r: Self)
        ensures
            expr_node_view(r) == expr_node_view(*self),
        decreases *self,
    {
        match self {
            ExpressionNode::Int(v) => ExpressionNode::Int(*v),
            ExpressionNode::Float(bits) => ExpressionNode::Float(*bits),
            ExpressionNode::Str(s) => ExpressionNode::Str(s.clone()),
            ExpressionNode::Char(c) => ExpressionNode::Char(*c),
            ExpressionNode::Bool(b) => ExpressionNode::Bool(*b),
            ExpressionNode::Unwrap(e) => ExpressionNode::Unwrap(rc_alias(e)),
            ExpressionNode::Neg(e) => ExpressionNode::Neg(rc_alias(e)),
            ExpressionNode::Identifier(name) => ExpressionNode::Identifier(name.clone()),
            ExpressionNode::Binary(l, op, r) => ExpressionNode::Binary(
                rc_alias(l),
                *op,
                rc_alias(r),
            ),
            ExpressionNode::Block(stmts) => ExpressionNode::Block(clone_stmts(stmts)),
            ExpressionNode::Cast(e, t) => ExpressionNode::Cast(rc_alias(e), t.clone()),
            ExpressionNode::Array(elems) => ExpressionNode::Array(clone_exprs(elems)),
            ExpressionNode::Index(e, idx) => ExpressionNode::Index(rc_alias(e), rc_alias(idx)),
            ExpressionNode::Function(params, ret, body, attrs) => ExpressionNode::Function(
                clone_params(params),
                ret.clone(),
                rc_alias(body),
                clone_names(attrs),
            ),
            ExpressionNode::Call(callee, args) => ExpressionNode::Call(
                rc_alias(callee),
                clone_exprs(args),
            ),
            ExpressionNode::If(cond, then, clauses) => ExpressionNode::If(
                rc_alias(cond),
                rc_alias(then),
                match clauses {
                    Option::Some(v) => Option::Some(clone_clauses(v)),
                    Option::None => Option::None,
                },
            ),
            ExpressionNode::Module(body) => ExpressionNode::Module(rc_alias(body)),
            ExpressionNode::While(cond, body) => ExpressionNode::While(
                rc_alias(cond),
                rc_alias(body),
            ),
            ExpressionNode::Struct(name, fields, attrs) => ExpressionNode::Struct(
                name.clone(),
                clone_params(fields),
                clone_names(attrs),
            ),
            ExpressionNode::Initialization(target, fields) => ExpressionNode::Initialization(
                rc_alias(target),
                clone_inits(fields),
            ),
            ExpressionNode::Extern(t, linkage) => ExpressionNode::Extern(
                t.clone(),
                match linkage {
                    Option::Some(s) => Option::Some(s.clone()),
                    Option::None => Option::None,
                },
            ),
            ExpressionNode::EOF => ExpressionNode::EOF,
            ExpressionNode::Empty => ExpressionNode::Empty,
        }
    }
}

impl Clone for Expression {
    /// A clone of an expression has the view of the original.
    fn clone(&self) -> (r: Self)
        ensures
            r@ == (*self)@,
        decreases *self,
    {
        Expression { node: self.node.clone(), pos: self.pos }
    }
}

impl vstd::std_specs::cmp::PartialEqSpecImpl for Type {
    open spec fn obeys_eq_spec() -> bool {
        true
    }

    open spec fn eq_spec(&self, other: &Type) -> bool {
        self@ == other@
    }
}

impl PartialEq for Type {
    /// Two type names are equal exactly when they read the same.
    fn eq(&self, other: &Type) -> (r: bool) {
        self.name == other.name
    }
}

/// Compares two name lists element for element.
fn eq_names(a: &Vec<String>, b: &Vec<String>) -> (r: bool)
    ensures
        r == (names_view(a@) == names_view(b@)),
{
    if a.len() != b.len() {
        proof {
            assert(names_view(a@).len() != names_view(b@).len());
        }
        return false;
    }
    let mut i: usize = 0;
    while i < a.len()
        invariant
            a@.len() == b@.len(),
            i <= a@.len(),
            forall|j: int| 0 <= j < i ==> a@[j]@ == b@[j]@,
        decreases a@.len() - i,
    {
        if !(a[i] == b[i]) {
            proof {
                assert(names_view(a@)[i as int] != names_view(b@)[i as int]);
            }
            return false;
        }
        i = i + 1;
    }
    proof {
        assert(names_view(a@) =~= names_view(b@));
    }
    true
}

/// Compares two typed parameter or field lists pair for pair.
fn eq_params(a: &Vec<(String, Type)>, b: &Vec<(String, Type)>) -> (r: bool)
    ensures
        r == (params_view(a@) == params_view(b@)),
{
    if a.len() != b.len() {
        proof {
            assert(params_view(a@).len() != params_view(b@).len());
        }
        return false;
    }
    let mut i: usize = 0;
    while i < a.len()
        invariant
            a@.len() == b@.len(),
            i <= a@.len(),
            forall|j: int| #![all_triggers] 0 <= j < i ==> a@[j].0@ == b@[j].0@ && a@[j].1@ == b@[j].1@,
        decreases a@.len() - i,
    {
        if !(a[i].0 == b[i].0 && a[i].1 == b[i].1) {
            proof {
                assert(params_view(a@)[i as int] != params_view(b@)[i as int]);
            }
            return false;
        }
        i = i + 1;
    }
    proof {
        assert(params_view(a@) =~= params_view(b@));
    }
    true
}

/// Compares two statement sequences in order.
fn eq_stmts(a: &Vec<Statement>, b: &Vec<Statement>) -> (r: bool)
    ensures
        r == (stmts_view(a@) == stmts_view(b@)),
    decreases a@,
{
    proof {
        lemma_statement_order_preserved(a@);
        lemma_statement_order_preserved(b@);
    }
    if a.len() != b.len() {
        return false;
    }
    let mut i: usize = 0;
    while i < a.len()
        invariant
            a@.len() == b@.len(),
            i <= a@.len(),
            stmts_view(a@).len() == a@.len(),
            stmts_view(b@).len() == b@.len(),
            forall|j: int| 0 <= j < a@.len() ==> stmts_view(a@)[j] == a@[j]@,
            forall|j: int| 0 <= j < b@.len() ==> stmts_view(b@)[j] == b@[j]@,
            forall|j: int| 0 <= j < i ==> a@[j]@ == b@[j]@,
        decreases a@.len() - i,
    {
        if !a[i].eq(&b[i]) {
            proof {
                assert(stmts_view(a@)[i as int] != stmts_view(b@)[i as int]);
            }
            return false;
        }
        i = i + 1;
    }
    proof {
        assert(stmts_view(a@) =~= stmts_view(b@));
    }
    true
}

/// Compares two expression sequences in order.
fn eq_exprs(a: &Vec<Expression>, b: &Vec<Expression>) -> (r: bool)
    ensures
        r == (exprs_view(a@) == exprs_view(b@)),
    decreases a@,
{
    proof {
        lemma_exprs_view_index(a@);
        lemma_exprs_view_index(b@);
    }
    if a.len() != b.len() {
        return false;
    }
    let mut i: usize = 0;
    while i < a.len()
        invariant
            a@.len() == b@.len(),
            i <= a@.len(),
            exprs_view(a@).len() == a@.len(),
            exprs_view(b@).len() == b@.len(),
            forall|j: int| 0 <= j < a@.len() ==> exprs_view(a@)[j] == a@[j]@,
            forall|j: int| 0 <= j < b@.len() ==> exprs_view(b@)[j] == b@[j]@,
            forall|j: int| 0 <= j < i ==> a@[j]@ == b@[j]@,
        decreases a@.len() - i,
    {
        if !a[i].eq(&b[i]) {
            proof {
                assert(exprs_view(a@)[i as int] != exprs_view(b@)[i as int]);
            }
            return false;
        }
        i = i + 1;
    }
    proof {
        assert(exprs_view(a@) =~= exprs_view(b@));
    }
    true
}

/// Compares two `If` clause lists in order.
fn eq_clauses(
    a: &Vec<(Option<Expression>, Expression, Pos)>,
    b: &Vec<(Option<Expression>, Expression, Pos)>,
) -> (r: bool)
    ensures
        r == (clauses_view(a@) == clauses_view(b@)),
    decreases a@,
{
    proof {
        lemma_clauses_view_index(a@);
        lemma_clauses_view_index(b@);
    }
    if a.len() != b.len() {
        return false;
    }
    let mut i: usize = 0;
    while i < a.len()
        invariant
            a@.len() == b@.len(),
            i <= a@.len(),
            clauses_view(a@).len() == a@.len(),
            clauses_view(b@).len() == b@.len(),
            forall|j: int| #![trigger clauses_view(a@)[j]]
                0 <= j < a@.len() ==> clauses_view(a@)[j] == (
                opt_expr_view(a@[j].0),
                expr_view(a@[j].1),
                a@[j].2,
                ),
            forall|j: int| #![trigger clauses_view(b@)[j]]
                0 <= j < b@.len() ==> clauses_view(b@)[j] == (
                opt_expr_view(b@[j].0),
                expr_view(b@[j].1),
                b@[j].2,
                ),
            forall|j: int| #![all_triggers]
                0 <= j < i ==> opt_expr_view(a@[j].0) == opt_expr_view(b@[j].0) && a@[j].1@
                    == b@[j].1@ && a@[j].2 == b@[j].2,
        decreases a@.len() - i,
    {
        let guards_equal = match (&a[i].0, &b[i].0) {
            (Option::Some(x), Option::Some(y)) => x.eq(y),
            (Option::None, Option::None) => true,
            _ => false,
        };
        if !(guards_equal && a[i].1.eq(&b[i].1) && a[i].2 == b[i].2) {
            proof {
                assert(clauses_view(a@)[i as int] != clauses_view(b@)[i as int]);
            }
            return false;
        }
        i = i + 1;
    }
    proof {
        assert(clauses_view(a@) =~= clauses_view(b@));
    }
    true
}

/// Compares two field/value lists in order.
fn eq_inits(a: &Vec<(String, Expression)>, b: &Vec<(String, Expression)>) -> (r: bool)
    ensures
        r == (inits_view(a@) == inits_view(b@)),
    decreases a@,
{
    proof {
        lemma_inits_view_index(a@);
        lemma_inits_view_index(b@);
    }
    if a.len() != b.len() {
        return false;
    }
    let mut i: usize = 0;
    while i < a.len()
        invariant
            a@.len() == b@.len(),
            i <= a@.len(),
            inits_view(a@).len() == a@.len(),
            inits_view(b@).len() == b@.len(),
            forall|j: int| #![trigger inits_view(a@)[j]]
                0 <= j < a@.len() ==> inits_view(a@)[j] == (a@[j].0@, expr_view(a@[j].1)),
            forall|j: int| #![trigger inits_view(b@)[j]]
                0 <= j < b@.len() ==> inits_view(b@)[j] == (b@[j].0@, expr_view(b@[j].1)),
            forall|j: int| #![all_triggers]
                0 <= j < i ==> a@[j].0@ == b@[j].0@ && a@[j].1@ == b@[j].1@,
        decreases a@.len() - i,
    {
        if !(a[i].0 == b[i].0 && a[i].1.eq(&b[i].1)) {
            proof {
                assert(inits_view(a@)[i as int] != inits_view(b@)[i as int]);
            }
            return false;
        }
        i = i + 1;
    }
    proof {
        assert(inits_view(a@) =~= inits_view(b@));
    }
    true
}

impl vstd::std_specs::cmp::PartialEqSpecImpl for StatementNode {
    open spec fn obeys_eq_spec() -> bool {
        true
    }

    open spec fn eq_spec(&self, other: &StatementNode) -> bool {
        stmt_node_view(*self) == stmt_node_view(*other)
    }
}

impl PartialEq for StatementNode {
    /// Two payloads are equal exactly when variant and every field agree.
    #[verifier::rlimit(50)]
    fn eq(&self, other: &StatementNode) -> (r: bool)
        decreases *self,
    {
        match (self, other) {
            (StatementNode::Expression(a), StatementNode::Expression(b)) => a.eq(b),
            (
                StatementNode::Variable(t1, n1, i1),
                StatementNode::Variable(t2, n2, i2),
            ) => t1.eq(t2) && *n1 == *n2 && (match (i1, i2) {
                (Option::Some(x), Option::Some(y)) => x.eq(y),
                (Option::None, Option::None) => true,
                _ => false,
            }),
            (
                StatementNode::Assignment(a1, v1),
                StatementNode::Assignment(a2, v2),
            ) => a1.eq(a2) && v1.eq(v2),
            (StatementNode::Return(o1), StatementNode::Return(o2)) => match (o1, o2) {
                (Option::Some(x), Option::Some(y)) => (&**x).eq(&**y),
                (Option::None, Option::None) => true,
                _ => false,
            },
            (StatementNode::Import(p1, n1), StatementNode::Import(p2, n2)) => *p1 == *p2
                && eq_names(n1, n2),
            (
                StatementNode::Implement(t1, tr1, b1),
                StatementNode::Implement(t2, tr2, b2),
            ) => t1.eq(t2) && eq_names(tr1, tr2) && b1.eq(b2),
            (StatementNode::Break, StatementNode::Break) => true,
            (StatementNode::Skip, StatementNode::Skip) => true,
            _ => false,
        }
    }
}

impl vstd::std_specs::cmp::PartialEqSpecImpl for Statement {
    open spec fn obeys_eq_spec() -> bool {
        true
    }

    open spec fn eq_spec(&self, other: &Statement) -> bool {
        (*self)@ == (*other)@
    }
}

impl PartialEq for Statement {
    /// Two statements are equal exactly when payload and position agree.
    fn eq(&self, other: &Statement) -> (r: bool)
        decreases *self,
    {
        self.node.eq(&other.node) && self.pos == other.pos
    }
}

impl vstd::std_specs::cmp::PartialEqSpecImpl for ExpressionNode {
    open spec fn obeys_eq_spec() -> bool {
        true
    }

    open spec fn eq_spec(&self, other: &ExpressionNode) -> bool {
        expr_node_view(*self) == expr_node_view(*other)
    }
}

impl PartialEq for ExpressionNode {
    /// Two payloads are equal exactly when variant and every field agree.
    /// Shared children compare by value, not by pointer.
    #[verifier::rlimit(50)]
    fn eq(&self, other: &ExpressionNode) -> (r: bool)
        decreases *self,
    {
        match (self, other) {
            (ExpressionNode::Int(a), ExpressionNode::Int(b)) => *a == *b,
            (ExpressionNode::Float(a), ExpressionNode::Float(b)) => *a == *b,
            (ExpressionNode::Str(a), ExpressionNode::Str(b)) => *a == *b,
            (ExpressionNode::Char(a), ExpressionNode::Char(b)) => *a == *b,
            (ExpressionNode::Bool(a), ExpressionNode::Bool(b)) => *a == *b,
            (ExpressionNode::Unwrap(a), ExpressionNode::Unwrap(b)) => (&**a).eq(&**b),
            (ExpressionNode::Neg(a), ExpressionNode::Neg(b)) => (&**a).eq(&**b),
            (ExpressionNode::Identifier(a), ExpressionNode::Identifier(b)) => *a == *b,
            (
                ExpressionNode::Binary(l1, o1, r1),
                ExpressionNode::Binary(l2, o2, r2),
            ) => (&**l1).eq(&**l2) && *o1 == *o2 && (&**r1).eq(&**r2),
            (ExpressionNode::Block(a), ExpressionNode::Block(b)) => eq_stmts(a, b),
            (ExpressionNode::Cast(e1, t1), ExpressionNode::Cast(e2, t2)) => (&**e1).eq(&**e2)
                && t1.eq(t2),
            (ExpressionNode::Array(a), ExpressionNode::Array(b)) => eq_exprs(a, b),
            (ExpressionNode::Index(e1, i1), ExpressionNode::Index(e2, i2)) => (&**e1).eq(&**e2)
                && (&**i1).eq(&**i2),
            (
                ExpressionNode::Function(p1, r1, b1, a1),
                ExpressionNode::Function(p2, r2, b2, a2),
            ) => eq_params(p1, p2) && r1.eq(r2) && (&**b1).eq(&**b2) && eq_names(a1, a2),
            (ExpressionNode::Call(c1, a1), ExpressionNode::Call(c2, a2)) => (&**c1).eq(&**c2)
                && eq_exprs(a1, a2),
            (
                ExpressionNode::If(c1, t1, e1),
                ExpressionNode::If(c2, t2, e2),
            ) => (&**c1).eq(&**c2) && (&**t1).eq(&**t2) && (match (e1, e2) {
                (Option::Some(v1), Option::Some(v2)) => eq_clauses(v1, v2),
                (Option::None, Option::None) => true,
                _ => false,
            }),
            (ExpressionNode::Module(a), ExpressionNode::Module(b)) => (&**a).eq(&**b),
            (ExpressionNode::While(c1, b1), ExpressionNode::While(c2, b2)) => (&**c1).eq(&**c2)
                && (&**b1).eq(&**b2),
            (
                ExpressionNode::Struct(n1, f1, a1),
                ExpressionNode::Struct(n2, f2, a2),
            ) => *n1 == *n2 && eq_params(f1, f2) && eq_names(a1, a2),
            (
                ExpressionNode::Initialization(t1, f1),
                ExpressionNode::Initialization(t2, f2),
            ) => (&**t1).eq(&**t2) && eq_inits(f1, f2),
            (ExpressionNode::Extern(t1, l1), ExpressionNode::Extern(t2, l2)) => t1.eq(t2)
                && (match (l1, l2) {
                (Option::Some(x), Option::Some(y)) => *x == *y,
                (Option::None, Option::None) => true,
                _ => false,
            }),
            (ExpressionNode::EOF, ExpressionNode::EOF) => true,
            (ExpressionNode::Empty, ExpressionNode::Empty) => true,
            _ => false,
        }
    }
}

impl vstd::std_specs::cmp::PartialEqSpecImpl for Expression {
    open spec fn obeys_eq_spec() -> bool {
        true
    }

    open spec fn eq_spec(&self, other: &Expression) -> bool {
        (*self)@ == (*other)@
    }
}

impl PartialEq for Expression {
    /// Two expressions are equal exactly when payload and position agree.
    fn eq(&self, other: &Expression) -> (r: bool)
        decreases *self,
    {
        self.node.eq(&other.node) && self.pos == other.pos
    }
}

/// Law: two expressions are equal exactly when their variant with its whole
/// payload and their position all agree, and changing only the position
/// makes them unequal. `==` on expressions is specified as equality of
/// their views, so this pins down the executable comparison as well.
pub proof fn lemma_expression_equality(a: Expression, b: Expression)
    ensures
        (a@ == b@) <==> (expr_node_view(a.node) == expr_node_view(b.node) && a.pos == b.pos),
        expr_node_view(a.node) == expr_node_view(b.node) && a.pos != b.pos ==> a@ != b@,
{
}

/// Law: two statements are equal exactly when their variant with its whole
/// payload and their position all agree, and changing only the position
/// makes them unequal. `==` on statements is specified as equality of
/// their views.
pub proof fn lemma_statement_equality(a: Statement, b: Statement)
    ensures
        (a@ == b@) <==> (stmt_node_view(a.node) == stmt_node_view(b.node) && a.pos == b.pos),
        stmt_node_view(a.node) == stmt_node_view(b.node) && a.pos != b.pos ==> a@ != b@,
{
}

/// Law: an ordered statement sequence keeps its insertion order in the
/// model: the view of statement `i` stands at index `i`, nothing is added,
/// dropped or reordered. Together with the `Clone` contracts above this
/// carries the order of a `Block` through every copy.
pub proof fn lemma_statement_order_preserved(stmts: Seq<Statement>)
    ensures
        stmts_view(stmts).len() == stmts.len(),
        forall|i: int| 0 <= i < stmts.len() ==> stmts_view(stmts)[i] == stmts[i]@,
    decreases stmts,
{
    if stmts.len() > 0 {
        lemma_statement_order_preserved(stmts.drop_first());
        assert forall|i: int| 0 <= i < stmts.len() implies stmts_view(stmts)[i] == stmts[i]@ by {
            if i > 0 {
                assert(stmts.drop_first()[i - 1] == stmts[i]);
            }
        }
    }
}

} // verus!
