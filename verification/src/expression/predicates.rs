use vstd::prelude::*;
use crate::query_builder::{BuildQueryResult, QueryBuilder, Token, lemma_render_concat, lemma_render_one};
use crate::types::{Bool, VarChar};
use super::{Expression, NonAggregate, SelectableExpression, infix, infix_to_sql, render_of, sql};

verus! {

/// `left = right`, between two expressions.
#[derive(Debug, Clone, Copy)]
pub struct Eq<L, R> {
    pub left: L,
    pub right: R,
}

impl<L, R> Eq<L, R> {
    pub fn new(left: L, right: R) -> (r: Self)
        ensures
            r.left == left,
            r.right == right,
    {
        Eq { left, right }
    }
}

impl<L, R> Expression for Eq<L, R> where L: Expression, R: Expression {
    type SqlType = Bool;

    open spec fn tokens(&self) -> Seq<Token> {
        infix(self.left.tokens(), " = "@, self.right.tokens())
    }

    fn to_sql<QB: QueryBuilder>(&self, out: &mut QB) -> (r: BuildQueryResult) {
        infix_to_sql(&self.left, " = ", &self.right, out)
    }
}

impl<L, R, QS> SelectableExpression<QS> for Eq<L, R> where
    L: SelectableExpression<QS>,
    R: SelectableExpression<QS>,
    Eq<L, R>: Expression,
{
}

impl<L, R> NonAggregate for Eq<L, R> where L: NonAggregate, R: NonAggregate, Eq<L, R>: Expression {
}

/// `left != right`, between two expressions.
#[derive(Debug, Clone, Copy)]
pub struct NotEq<L, R> {
    pub left: L,
    pub right: R,
}

impl<L, R> NotEq<L, R> {
    pub fn new(left: L, right: R) -> (r: Self)
        ensures
            r.left == left,
            r.right == right,
    {
        NotEq { left, right }
    }
}

impl<L, R> Expression for NotEq<L, R> where L: Expression, R: Expression {
    type SqlType = Bool;

    open spec fn tokens(&self) -> Seq<Token> {
        infix(self.left.tokens(), " != "@, self.right.tokens())
    }

    fn to_sql<QB: QueryBuilder>(&self, out: &mut QB) -> (r: BuildQueryResult) {
        infix_to_sql(&self.left, " != ", &self.right, out)
    }
}

impl<L, R, QS> SelectableExpression<QS> for NotEq<L, R> where
    L: SelectableExpression<QS>,
    R: SelectableExpression<QS>,
    NotEq<L, R>: Expression,
{
}

impl<L, R> NonAggregate for NotEq<L, R> where L: NonAggregate, R: NonAggregate, NotEq<L, R>: Expression {
}

/// `left > right`, between two expressions.
#[derive(Debug, Clone, Copy)]
pub struct Gt<L, R> {
    pub left: L,
    pub right: R,
}

impl<L, R> Gt<L, R> {
    pub fn new(left: L, right: R) -> (r: Self)
        ensures
            r.left == left,
            r.right == right,
    {
        Gt { left, right }
    }
}

impl<L, R> Expression for Gt<L, R> where L: Expression, R: Expression {
    type SqlType = Bool;

    open spec fn tokens(&self) -> Seq<Token> {
        infix(self.left.tokens(), " > "@, self.right.tokens())
    }

    fn to_sql<QB: QueryBuilder>(&self, out: &mut QB) -> (r: BuildQueryResult) {
        infix_to_sql(&self.left, " > ", &self.right, out)
    }
}

impl<L, R, QS> SelectableExpression<QS> for Gt<L, R> where
    L: SelectableExpression<QS>,
    R: SelectableExpression<QS>,
    Gt<L, R>: Expression,
{
}

impl<L, R> NonAggregate for Gt<L, R> where L: NonAggregate, R: NonAggregate, Gt<L, R>: Expression {
}

/// `left >= right`, between two expressions.
#[derive(Debug, Clone, Copy)]
pub struct GtEq<L, R> {
    pub left: L,
    pub right: R,
}

impl<L, R> GtEq<L, R> {
    pub fn new(left: L, right: R) -> (r: Self)
        ensures
            r.left == left,
            r.right == right,
    {
        GtEq { left, right }
    }
}

impl<L, R> Expression for GtEq<L, R> where L: Expression, R: Expression {
    type SqlType = Bool;

    open spec fn tokens(&self) -> Seq<Token> {
        infix(self.left.tokens(), " >= "@, self.right.tokens())
    }

    fn to_sql<QB: QueryBuilder>(&self, out: &mut QB) -> (r: BuildQueryResult) {
        infix_to_sql(&self.left, " >= ", &self.right, out)
    }
}

impl<L, R, QS> SelectableExpression<QS> for GtEq<L, R> where
    L: SelectableExpression<QS>,
    R: SelectableExpression<QS>,
    GtEq<L, R>: Expression,
{
}

impl<L, R> NonAggregate for GtEq<L, R> where L: NonAggregate, R: NonAggregate, GtEq<L, R>: Expression {
}

/// `left < right`, between two expressions.
#[derive(Debug, Clone, Copy)]
pub struct Lt<L, R> {
    pub left: L,
    pub right: R,
}

impl<L, R> Lt<L, R> {
    pub fn new(left: L, right: R) -> (r: Self)
        ensures
            r.left == left,
            r.right == right,
    {
        Lt { left, right }
    }
}

impl<L, R> Expression for Lt<L, R> where L: Expression, R: Expression {
    type SqlType = Bool;

    open spec fn tokens(&self) -> Seq<Token> {
        infix(self.left.tokens(), " < "@, self.right.tokens())
    }

    fn to_sql<QB: QueryBuilder>(&self, out: &mut QB) -> (r: BuildQueryResult) {
        infix_to_sql(&self.left, " < ", &self.right, out)
    }
}

impl<L, R, QS> SelectableExpression<QS> for Lt<L, R> where
    L: SelectableExpression<QS>,
    R: SelectableExpression<QS>,
    Lt<L, R>: Expression,
{
}

impl<L, R> NonAggregate for Lt<L, R> where L: NonAggregate, R: NonAggregate, Lt<L, R>: Expression {
}

/// `left <= right`, between two expressions.
#[derive(Debug, Clone, Copy)]
pub struct LtEq<L, R> {
    pub left: L,
    pub right: R,
}

impl<L, R> LtEq<L, R> {
    pub fn new(left: L, right: R) -> (r: Self)
        ensures
            r.left == left,
            r.right == right,
    {
        LtEq { left, right }
    }
}

impl<L, R> Expression for LtEq<L, R> where L: Expression, R: Expression {
    type SqlType = Bool;

    open spec fn tokens(&self) -> Seq<Token> {
        infix(self.left.tokens(), " <= "@, self.right.tokens())
    }

    fn to_sql<QB: QueryBuilder>(&self, out: &mut QB) -> (r: BuildQueryResult) {
        infix_to_sql(&self.left, " <= ", &self.right, out)
    }
}

impl<L, R, QS> SelectableExpression<QS> for LtEq<L, R> where
    L: SelectableExpression<QS>,
    R: SelectableExpression<QS>,
    LtEq<L, R>: Expression,
{
}

impl<L, R> NonAggregate for LtEq<L, R> where L: NonAggregate, R: NonAggregate, LtEq<L, R>: Expression {
}

/// `left AND right`, between two boolean expressions.
#[derive(Debug, Clone, Copy)]
pub struct And<L, R> {
    pub left: L,
    pub right: R,
}

impl<L, R> And<L, R> {
    pub fn new(left: L, right: R) -> (r: Self)
        ensures
            r.left == left,
            r.right == right,
    {
        And { left, right }
    }
}

impl<L, R> Expression for And<L, R> where L: Expression<SqlType = Bool>, R: Expression<SqlType = Bool> {
    type SqlType = Bool;

    open spec fn tokens(&self) -> Seq<Token> {
        infix(self.left.tokens(), " AND "@, self.right.tokens())
    }

    fn to_sql<QB: QueryBuilder>(&self, out: &mut QB) -> (r: BuildQueryResult) {
        infix_to_sql(&self.left, " AND ", &self.right, out)
    }
}

impl<L, R, QS> SelectableExpression<QS> for And<L, R> where
    L: SelectableExpression<QS>,
    R: SelectableExpression<QS>,
    And<L, R>: Expression,
{
}

impl<L, R> NonAggregate for And<L, R> where L: NonAggregate, R: NonAggregate, And<L, R>: Expression {
}

/// `left OR right`, between two boolean expressions.
#[derive(Debug, Clone, Copy)]
pub struct Or<L, R> {
    pub left: L,
    pub right: R,
}

impl<L, R> Or<L, R> {
    pub fn new(left: L, right: R) -> (r: Self)
        ensures
            r.left == left,
            r.right == right,
    {
        Or { left, right }
    }
}

impl<L, R> Expression for Or<L, R> where L: Expression<SqlType = Bool>, R: Expression<SqlType = Bool> {
    type SqlType = Bool;

    open spec fn tokens(&self) -> Seq<Token> {
        infix(self.left.tokens(), " OR "@, self.right.tokens())
    }

    fn to_sql<QB: QueryBuilder>(&self, out: &mut QB) -> (r: BuildQueryResult) {
        infix_to_sql(&self.left, " OR ", &self.right, out)
    }
}

impl<L, R, QS> SelectableExpression<QS> for Or<L, R> where
    L: SelectableExpression<QS>,
    R: SelectableExpression<QS>,
    Or<L, R>: Expression,
{
}

impl<L, R> NonAggregate for Or<L, R> where L: NonAggregate, R: NonAggregate, Or<L, R>: Expression {
}

/// `left LIKE right`, where the pattern is a text.
#[derive(Debug, Clone, Copy)]
pub struct Like<L, R> {
    pub left: L,
    pub right: R,
}

impl<L, R> Like<L, R> {
    pub fn new(left: L, right: R) -> (r: Self)
        ensures
            r.left == left,
            r.right == right,
    {
        Like { left, right }
    }
}

impl<L, R> Expression for Like<L, R> where L: Expression, R: Expression<SqlType = VarChar> {
    type SqlType = Bool;

    open spec fn tokens(&self) -> Seq<Token> {
        infix(self.left.tokens(), " LIKE "@, self.right.tokens())
    }

    fn to_sql<QB: QueryBuilder>(&self, out: &mut QB) -> (r: BuildQueryResult) {
        infix_to_sql(&self.left, " LIKE ", &self.right, out)
    }
}

impl<L, R, QS> SelectableExpression<QS> for Like<L, R> where
    L: SelectableExpression<QS>,
    R: SelectableExpression<QS>,
    Like<L, R>: Expression,
{
}

impl<L, R> NonAggregate for Like<L, R> where L: NonAggregate, R: NonAggregate, Like<L, R>: Expression {
}

/// `left NOT LIKE right`, where the pattern is a text.
#[derive(Debug, Clone, Copy)]
pub struct NotLike<L, R> {
    pub left: L,
    pub right: R,
}

impl<L, R> NotLike<L, R> {
    pub fn new(left: L, right: R) -> (r: Self)
        ensures
            r.left == left,
            r.right == right,
    {
        NotLike { left, right }
    }
}

impl<L, R> Expression for NotLike<L, R> where L: Expression, R: Expression<SqlType = VarChar> {
    type SqlType = Bool;

    open spec fn tokens(&self) -> Seq<Token> {
        infix(self.left.tokens(), " NOT LIKE "@, self.right.tokens())
    }

    fn to_sql<QB: QueryBuilder>(&self, out: &mut QB) -> (r: BuildQueryResult) {
        infix_to_sql(&self.left, " NOT LIKE ", &self.right, out)
    }
}

impl<L, R, QS> SelectableExpression<QS> for NotLike<L, R> where
    L: SelectableExpression<QS>,
    R: SelectableExpression<QS>,
    NotLike<L, R>: Expression,
{
}

impl<L, R> NonAggregate for NotLike<L, R> where L: NonAggregate, R: NonAggregate, NotLike<L, R>: Expression {
}

/// `target BETWEEN lower AND upper`, where the bounds have the target's SQL type.
#[derive(Debug, Clone, Copy)]
pub struct Between<T, Lower, Upper> {
    pub target: T,
    pub lower: Lower,
    pub upper: Upper,
}

impl<T, Lower, Upper> Between<T, Lower, Upper> {
    pub fn new(target: T, lower: Lower, upper: Upper) -> (r: Self)
        ensures
            r.target == target,
            r.lower == lower,
            r.upper == upper,
    {
        Between { target, lower, upper }
    }
}

impl<T, Lower, Upper> Expression for Between<T, Lower, Upper> where
    T: Expression,
    Lower: Expression<SqlType = T::SqlType>,
    Upper: Expression<SqlType = T::SqlType>,
{
    type SqlType = Bool;

    open spec fn tokens(&self) -> Seq<Token> {
        infix(self.target.tokens(), " BETWEEN "@, infix(self.lower.tokens(), " AND "@, self.upper.tokens()))
    }

    fn to_sql<QB: QueryBuilder>(&self, out: &mut QB) -> (r: BuildQueryResult) {
        let ghost start = out.output();
        let ghost bounds = infix(self.lower.tokens(), " AND "@, self.upper.tokens());
        proof {
            lemma_render_concat(self.target.tokens(), sql(" BETWEEN "@), start);
            lemma_render_concat(self.target.tokens() + sql(" BETWEEN "@), bounds, start);
            lemma_render_one(Token::Sql(" BETWEEN "@), render_of(self.target.tokens(), start));
        }
        self.target.to_sql(out)?;
        out.push_sql(" BETWEEN ");
        infix_to_sql(&self.lower, " AND ", &self.upper, out)
    }
}

impl<T, Lower, Upper, QS> SelectableExpression<QS> for Between<T, Lower, Upper> where
    T: SelectableExpression<QS>,
    Lower: SelectableExpression<QS>,
    Upper: SelectableExpression<QS>,
    Between<T, Lower, Upper>: Expression,
{
}

impl<T, Lower, Upper> NonAggregate for Between<T, Lower, Upper> where
    T: NonAggregate,
    Lower: NonAggregate,
    Upper: NonAggregate,
    Between<T, Lower, Upper>: Expression,
{
}

/// `target NOT BETWEEN lower AND upper`, where the bounds have the target's SQL type.
#[derive(Debug, Clone, Copy)]
pub struct NotBetween<T, Lower, Upper> {
    pub target: T,
    pub lower: Lower,
    pub upper: Upper,
}

impl<T, Lower, Upper> NotBetween<T, Lower, Upper> {
    pub fn new(target: T, lower: Lower, upper: Upper) -> (r: Self)
        ensures
            r.target == target,
            r.lower == lower,
            r.upper == upper,
    {
        NotBetween { target, lower, upper }
    }
}

impl<T, Lower, Upper> Expression for NotBetween<T, Lower, Upper> where
    T: Expression,
    Lower: Expression<SqlType = T::SqlType>,
    Upper: Expression<SqlType = T::SqlType>,
{
    type SqlType = Bool;

    open spec fn tokens(&self) -> Seq<Token> {
        infix(self.target.tokens(), " NOT BETWEEN "@, infix(self.lower.tokens(), " AND "@, self.upper.tokens()))
    }

    fn to_sql<QB: QueryBuilder>(&self, out: &mut QB) -> (r: BuildQueryResult) {
        let ghost start = out.output();
        let ghost bounds = infix(self.lower.tokens(), " AND "@, self.upper.tokens());
        proof {
            lemma_render_concat(self.target.tokens(), sql(" NOT BETWEEN "@), start);
            lemma_render_concat(self.target.tokens() + sql(" NOT BETWEEN "@), bounds, start);
            lemma_render_one(Token::Sql(" NOT BETWEEN "@), render_of(self.target.tokens(), start));
        }
        self.target.to_sql(out)?;
        out.push_sql(" NOT BETWEEN ");
        infix_to_sql(&self.lower, " AND ", &self.upper, out)
    }
}

impl<T, Lower, Upper, QS> SelectableExpression<QS> for NotBetween<T, Lower, Upper> where
    T: SelectableExpression<QS>,
    Lower: SelectableExpression<QS>,
    Upper: SelectableExpression<QS>,
    NotBetween<T, Lower, Upper>: Expression,
{
}

impl<T, Lower, Upper> NonAggregate for NotBetween<T, Lower, Upper> where
    T: NonAggregate,
    Lower: NonAggregate,
    Upper: NonAggregate,
    NotBetween<T, Lower, Upper>: Expression,
{
}

} // verus!
