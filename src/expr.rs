//! Compiled boolean expressions and their mathematical model.
use vstd::prelude::*;

verus! {

/// A scalar value as the query backend stores it.
#[derive(Debug, Clone, PartialEq)]
pub enum SqlValue {
    Integer(i32),
    SmallInt(i16),
    Text(String),
}

/// Model of a [`SqlValue`].
pub enum SqlValueModel {
    Integer(i32),
    SmallInt(i16),
    Text(Seq<char>),
}

impl View for SqlValue {
    type V = SqlValueModel;

    open spec fn view(&self) -> SqlValueModel {
        match self {
            SqlValue::Integer(i) => SqlValueModel::Integer(*i),
            SqlValue::SmallInt(i) => SqlValueModel::SmallInt(*i),
            SqlValue::Text(s) => SqlValueModel::Text(s@),
        }
    }
}

/// A compiled boolean expression bound to the columns of one relation.
#[derive(Debug, PartialEq)]
pub enum Expr {
    /// `column = value`
    Eq(String, SqlValue),
    /// `column LIKE pattern`
    Like(String, String),
    And(Box<Expr>, Box<Expr>),
    Or(Box<Expr>, Box<Expr>),
    Not(Box<Expr>),
}

/// Model of an [`Expr`]: column names and texts as character sequences.
pub enum Pred {
    Eq(Seq<char>, SqlValueModel),
    Like(Seq<char>, Seq<char>),
    And(Box<Pred>, Box<Pred>),
    Or(Box<Pred>, Box<Pred>),
    Not(Box<Pred>),
}

/// The model of an expression, built node by node.
pub open spec fn expr_model(e: &Expr) -> Pred
    decreases e,
{
    match e {
        Expr::Eq(c, v) => Pred::Eq(c@, v@),
        Expr::Like(c, p) => Pred::Like(c@, p@),
        Expr::And(a, b) => Pred::And(Box::new(expr_model(a)), Box::new(expr_model(b))),
        Expr::Or(a, b) => Pred::Or(Box::new(expr_model(a)), Box::new(expr_model(b))),
        Expr::Not(a) => Pred::Not(Box::new(expr_model(a))),
    }
}

impl View for Expr {
    type V = Pred;

    open spec fn view(&self) -> Pred {
        expr_model(self)
    }
}

/// Model of an optional compiled expression; `None` imposes no constraint.
pub open spec fn opt_pred(e: Option<Expr>) -> Option<Pred> {
    match e {
        Some(x) => Some(x@),
        None => None,
    }
}

/// Conjunction of two optional predicates: absent operands are dropped, and a
/// single remaining operand stands for itself.
pub open spec fn and_opt(a: Option<Pred>, b: Option<Pred>) -> Option<Pred> {
    match (a, b) {
        (None, None) => None,
        (Some(x), None) => Some(x),
        (None, Some(y)) => Some(y),
        (Some(x), Some(y)) => Some(Pred::And(Box::new(x), Box::new(y))),
    }
}

/// Disjunction of two optional predicates, with the same treatment of absent
/// operands as [`and_opt`].
pub open spec fn or_opt(a: Option<Pred>, b: Option<Pred>) -> Option<Pred> {
    match (a, b) {
        (None, None) => None,
        (Some(x), None) => Some(x),
        (None, Some(y)) => Some(y),
        (Some(x), Some(y)) => Some(Pred::Or(Box::new(x), Box::new(y))),
    }
}

/// Negation of an optional predicate: negating no constraint is no constraint.
pub open spec fn not_opt(a: Option<Pred>) -> Option<Pred> {
    match a {
        None => None,
        Some(x) => Some(Pred::Not(Box::new(x))),
    }
}

/// Joins two optional expressions with AND.
pub fn and_filters(a: Option<Expr>, b: Option<Expr>) -> (r: Option<Expr>)
    ensures
        opt_pred(r) == and_opt(opt_pred(a), opt_pred(b)),
{
    match (a, b) {
        (None, None) => None,
        (Some(x), None) => Some(x),
        (None, Some(y)) => Some(y),
        (Some(x), Some(y)) => Some(Expr::And(Box::new(x), Box::new(y))),
    }
}

/// Joins two optional expressions with OR.
pub fn or_filters(a: Option<Expr>, b: Option<Expr>) -> (r: Option<Expr>)
    ensures
        opt_pred(r) == or_opt(opt_pred(a), opt_pred(b)),
{
    match (a, b) {
        (None, None) => None,
        (Some(x), None) => Some(x),
        (None, Some(y)) => Some(y),
        (Some(x), Some(y)) => Some(Expr::Or(Box::new(x), Box::new(y))),
    }
}

/// Negates an optional expression.
pub fn not_filter(a: Option<Expr>) -> (r: Option<Expr>)
    ensures
        opt_pred(r) == not_opt(opt_pred(a)),
{
    match a {
        None => None,
        Some(x) => Some(Expr::Not(Box::new(x))),
    }
}

} // verus!
