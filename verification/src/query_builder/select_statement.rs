use vstd::prelude::*;
use std::marker::PhantomData;
use crate::expression::bound::{Bound, bound};
use crate::expression::{Expression, NonAggregate, SelectableExpression, sql};
use crate::query_dsl::{FilterDsl, SelectDsl};
use crate::query_source::QuerySource;
use crate::types::{Bool, NativeSqlType};
use super::{
    AsQuery, BuildQueryResult, Query, QueryBuilder, QueryFragment, Token, lemma_render_concat,
    lemma_render_one, render,
};

verus! {

/// A SELECT statement: what it selects, what it selects from, and the
/// predicate that it keeps rows by. `SqlType` is the SQL type of its rows.
pub struct SelectStatement<SqlType, Select, From, Where = Bound<Bool, bool>> {
    pub select: Select,
    pub from: From,
    pub where_clause: Where,
    pub _marker: PhantomData<SqlType>,
}

impl<ST, S, F, W> SelectStatement<ST, S, F, W> {
    pub open spec fn spec_new(select: S, from: F, where_clause: W) -> Self {
        SelectStatement { select, from, where_clause, _marker: PhantomData }
    }

    pub fn new(select: S, from: F, where_clause: W) -> (r: Self)
        ensures
            r == Self::spec_new(select, from, where_clause),
    {
        SelectStatement { select, from, where_clause, _marker: PhantomData }
    }
}

impl<ST, S, F> SelectStatement<ST, S, F> {
    pub open spec fn spec_simple(select: S, from: F) -> Self {
        Self::spec_new(select, from, bound::<Bool, bool>(true))
    }

    /// The statement that keeps every row: its predicate is the bound value `true`.
    pub fn simple(select: S, from: F) -> (r: Self)
        ensures
            r == Self::spec_simple(select, from),
    {
        SelectStatement::new(select, from, Bound::new(true))
    }
}

/// The tokens of `SELECT select FROM from WHERE predicate`.
pub open spec fn select_tokens(select: Seq<Token>, from: Seq<Token>, predicate: Seq<Token>) -> Seq<Token> {
    sql("SELECT "@) + select + sql(" FROM "@) + from + sql(" WHERE "@) + predicate
}

impl<ST, S, F, W> QueryFragment for SelectStatement<ST, S, F, W> where
    ST: NativeSqlType,
    F: QuerySource,
    S: SelectableExpression<F, ST>,
    W: SelectableExpression<F, Bool>,
{
    open spec fn tokens(&self) -> Seq<Token> {
        select_tokens(self.select.tokens(), self.from.from_tokens(), self.where_clause.tokens())
    }

    fn to_sql<QB: QueryBuilder>(&self, out: &mut QB) -> (r: BuildQueryResult) {
        let ghost start = out.output();
        let ghost a = sql("SELECT "@);
        let ghost b = a + self.select.tokens();
        let ghost c = b + sql(" FROM "@);
        let ghost d = c + self.from.from_tokens();
        let ghost e = d + sql(" WHERE "@);
        proof {
            lemma_render_one(Token::Sql("SELECT "@), start);
            lemma_render_concat(a, self.select.tokens(), start);
            lemma_render_concat(b, sql(" FROM "@), start);
            lemma_render_one(Token::Sql(" FROM "@), render(b, start).0);
            lemma_render_concat(c, self.from.from_tokens(), start);
            lemma_render_concat(d, sql(" WHERE "@), start);
            lemma_render_one(Token::Sql(" WHERE "@), render(d, start).0);
            lemma_render_concat(e, self.where_clause.tokens(), start);
        }
        out.push_sql("SELECT ");
        self.select.to_sql(out)?;
        out.push_sql(" FROM ");
        self.from.from_clause(out)?;
        out.push_sql(" WHERE ");
        self.where_clause.to_sql(out)
    }
}

impl<ST, S, F, W> Query for SelectStatement<ST, S, F, W> where
    ST: NativeSqlType,
    F: QuerySource,
    S: SelectableExpression<F, ST>,
    W: SelectableExpression<F, Bool>,
{
    type SqlType = ST;
}

impl<ST, S, F, W> AsQuery for SelectStatement<ST, S, F, W> where
    ST: NativeSqlType,
    F: QuerySource,
    S: SelectableExpression<F, ST>,
    W: SelectableExpression<F, Bool>,
{
    type SqlType = ST;

    type Query = Self;

    open spec fn spec_as_query(self) -> Self::Query {
        self
    }

    fn as_query(self) -> (r: Self::Query) {
        self
    }
}

impl<ST, S, F, W, Pred> FilterDsl<Pred> for SelectStatement<ST, S, F, W> where
    Pred: SelectableExpression<F, Bool> + NonAggregate,
{
    type Output = SelectStatement<ST, S, F, Pred>;

    open spec fn spec_filter(self, predicate: Pred) -> Self::Output {
        SelectStatement::spec_new(self.select, self.from, predicate)
    }

    fn filter(self, predicate: Pred) -> (r: Self::Output) {
        SelectStatement::new(self.select, self.from, predicate)
    }
}

impl<ST, S, F, W, Selection, Type> SelectDsl<Selection, Type> for SelectStatement<ST, S, F, W> where
    Type: NativeSqlType,
    Selection: SelectableExpression<F, Type>,
{
    type Output = SelectStatement<Type, Selection, F, W>;

    open spec fn spec_select(self, selection: Selection) -> Self::Output {
        SelectStatement::spec_new(selection, self.from, self.where_clause)
    }

    fn select(self, selection: Selection) -> (r: Self::Output) {
        SelectStatement::new(selection, self.from, self.where_clause)
    }
}

/// Filtering twice keeps the second predicate only: the statement is the one
/// that filtering by the second predicate alone gives, and its WHERE clause
/// is that predicate.
pub proof fn lemma_filter_replaces<ST, S, F, W, First, Second>(
    statement: SelectStatement<ST, S, F, W>,
    first: First,
    second: Second,
) where
    ST: NativeSqlType,
    F: QuerySource,
    S: SelectableExpression<F, ST>,
    First: SelectableExpression<F, Bool> + NonAggregate,
    Second: SelectableExpression<F, Bool> + NonAggregate,

    ensures
        statement.spec_filter(first).spec_filter(second) == statement.spec_filter(second),
        statement.spec_filter(first).spec_filter(second).tokens() == select_tokens(
            statement.select.tokens(),
            statement.from.from_tokens(),
            second.tokens(),
        ),
{
}

/// Selecting keeps the source and the predicate, and replaces what is selected.
pub proof fn lemma_select_replaces<ST, S, F, W, Selection, Type>(
    statement: SelectStatement<ST, S, F, W>,
    selection: Selection,
) where
    Type: NativeSqlType,
    F: QuerySource,
    Selection: SelectableExpression<F, Type>,
    W: SelectableExpression<F, Bool>,

    ensures
        statement.spec_select(selection).tokens() == select_tokens(
            selection.tokens(),
            statement.from.from_tokens(),
            statement.where_clause.tokens(),
        ),
{
}

} // verus!
