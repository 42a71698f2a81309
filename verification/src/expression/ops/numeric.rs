use vstd::prelude::*;
use crate::expression::{Expression, NonAggregate, SelectableExpression, infix, infix_to_sql};
use crate::query_builder::{BuildQueryResult, QueryBuilder, Token};

verus! {

/// The sum of two expressions, where the SQL type of the left one has that operation.
pub struct Add<Lhs, Rhs> {
    pub lhs: Lhs,
    pub rhs: Rhs,
}

impl<Lhs, Rhs> Add<Lhs, Rhs> {
    pub fn new(left: Lhs, right: Rhs) -> (r: Self)
        ensures
            r.lhs == left,
            r.rhs == right,
    {
        Add { lhs: left, rhs: right }
    }
}

impl<Lhs, Rhs> Expression for Add<Lhs, Rhs> where
    Lhs: Expression,
    Lhs::SqlType: crate::types::ops::Add,
    Rhs: Expression,
{
    type SqlType = <Lhs::SqlType as crate::types::ops::Add>::Output;

    open spec fn tokens(&self) -> Seq<Token> {
        infix(self.lhs.tokens(), " + "@, self.rhs.tokens())
    }

    fn to_sql<QB: QueryBuilder>(&self, out: &mut QB) -> (r: BuildQueryResult) {
        infix_to_sql(&self.lhs, " + ", &self.rhs, out)
    }
}

impl<Lhs, Rhs, QS> SelectableExpression<QS> for Add<Lhs, Rhs> where
    Lhs: SelectableExpression<QS>,
    Rhs: SelectableExpression<QS>,
    Add<Lhs, Rhs>: Expression,
{
}

impl<Lhs, Rhs> NonAggregate for Add<Lhs, Rhs> where
    Lhs: NonAggregate,
    Rhs: NonAggregate,
    Add<Lhs, Rhs>: Expression,
{
}

/// The difference of two expressions, where the SQL type of the left one has that operation.
pub struct Sub<Lhs, Rhs> {
    pub lhs: Lhs,
    pub rhs: Rhs,
}

impl<Lhs, Rhs> Sub<Lhs, Rhs> {
    pub fn new(left: Lhs, right: Rhs) -> (r: Self)
        ensures
            r.lhs == left,
            r.rhs == right,
    {
        Sub { lhs: left, rhs: right }
    }
}

impl<Lhs, Rhs> Expression for Sub<Lhs, Rhs> where
    Lhs: Expression,
    Lhs::SqlType: crate::types::ops::Sub,
    Rhs: Expression,
{
    type SqlType = <Lhs::SqlType as crate::types::ops::Sub>::Output;

    open spec fn tokens(&self) -> Seq<Token> {
        infix(self.lhs.tokens(), " - "@, self.rhs.tokens())
    }

    fn to_sql<QB: QueryBuilder>(&self, out: &mut QB) -> (r: BuildQueryResult) {
        infix_to_sql(&self.lhs, " - ", &self.rhs, out)
    }
}

impl<Lhs, Rhs, QS> SelectableExpression<QS> for Sub<Lhs, Rhs> where
    Lhs: SelectableExpression<QS>,
    Rhs: SelectableExpression<QS>,
    Sub<Lhs, Rhs>: Expression,
{
}

impl<Lhs, Rhs> NonAggregate for Sub<Lhs, Rhs> where
    Lhs: NonAggregate,
    Rhs: NonAggregate,
    Sub<Lhs, Rhs>: Expression,
{
}

/// The product of two expressions, where the SQL type of the left one has that operation.
pub struct Mul<Lhs, Rhs> {
    pub lhs: Lhs,
    pub rhs: Rhs,
}

impl<Lhs, Rhs> Mul<Lhs, Rhs> {
    pub fn new(left: Lhs, right: Rhs) -> (r: Self)
        ensures
            r.lhs == left,
            r.rhs == right,
    {
        Mul { lhs: left, rhs: right }
    }
}

impl<Lhs, Rhs> Expression for Mul<Lhs, Rhs> where
    Lhs: Expression,
    Lhs::SqlType: crate::types::ops::Mul,
    Rhs: Expression,
{
    type SqlType = <Lhs::SqlType as crate::types::ops::Mul>::Output;

    open spec fn tokens(&self) -> Seq<Token> {
        infix(self.lhs.tokens(), " * "@, self.rhs.tokens())
    }

    fn to_sql<QB: QueryBuilder>(&self, out: &mut QB) -> (r: BuildQueryResult) {
        infix_to_sql(&self.lhs, " * ", &self.rhs, out)
    }
}

impl<Lhs, Rhs, QS> SelectableExpression<QS> for Mul<Lhs, Rhs> where
    Lhs: SelectableExpression<QS>,
    Rhs: SelectableExpression<QS>,
    Mul<Lhs, Rhs>: Expression,
{
}

impl<Lhs, Rhs> NonAggregate for Mul<Lhs, Rhs> where
    Lhs: NonAggregate,
    Rhs: NonAggregate,
    Mul<Lhs, Rhs>: Expression,
{
}

/// The quotient of two expressions, where the SQL type of the left one has that operation.
pub struct Div<Lhs, Rhs> {
    pub lhs: Lhs,
    pub rhs: Rhs,
}

impl<Lhs, Rhs> Div<Lhs, Rhs> {
    pub fn new(left: Lhs, right: Rhs) -> (r: Self)
        ensures
            r.lhs == left,
            r.rhs == right,
    {
        Div { lhs: left, rhs: right }
    }
}

impl<Lhs, Rhs> Expression for Div<Lhs, Rhs> where
    Lhs: Expression,
    Lhs::SqlType: crate::types::ops::Div,
    Rhs: Expression,
{
    type SqlType = <Lhs::SqlType as crate::types::ops::Div>::Output;

    open spec fn tokens(&self) -> Seq<Token> {
        infix(self.lhs.tokens(), " / "@, self.rhs.tokens())
    }

    fn to_sql<QB: QueryBuilder>(&self, out: &mut QB) -> (r: BuildQueryResult) {
        infix_to_sql(&self.lhs, " / ", &self.rhs, out)
    }
}

impl<Lhs, Rhs, QS> SelectableExpression<QS> for Div<Lhs, Rhs> where
    Lhs: SelectableExpression<QS>,
    Rhs: SelectableExpression<QS>,
    Div<Lhs, Rhs>: Expression,
{
}

impl<Lhs, Rhs> NonAggregate for Div<Lhs, Rhs> where
    Lhs: NonAggregate,
    Rhs: NonAggregate,
    Div<Lhs, Rhs>: Expression,
{
}

} // verus!
