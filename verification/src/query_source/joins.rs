use vstd::prelude::*;
use crate::expression::{Expression, SelectableExpression, sql};
use crate::query_builder::{
    AsQuery, BuildQueryResult, QueryBuilder, SelectStatement, Token, lemma_render_concat,
    lemma_render_one, render,
};
use crate::query_dsl::{FilterDsl, SelectDsl};
use crate::types::{Bool, NativeSqlType, Nullable};
use super::{QuerySource, Table, table_tokens};

verus! {

/// A table that can be joined to the table `T`, on a predicate of its own.
pub trait JoinTo<T: Table>: Table {
    type Predicate: Expression<SqlType = Bool>;

    spec fn spec_join_expression(&self) -> Self::Predicate;

    /// The predicate that pairs a row of this table with a row of `T`.
    fn join_expression(&self) -> (r: Self::Predicate)
        ensures
            r == self.spec_join_expression(),
    ;
}

/// The tokens of `left keyword right ON predicate`.
pub open spec fn join_tokens(
    left: Seq<char>,
    keyword: Seq<char>,
    right: Seq<char>,
    predicate: Seq<Token>,
) -> Seq<Token> {
    table_tokens(left) + sql(keyword) + table_tokens(right) + sql(" ON "@) + predicate
}

/// Renders `left keyword right ON predicate`, and stops at the first failure.
pub fn join_to_sql<P: Expression, QB: QueryBuilder>(
    left: &str,
    keyword: &str,
    right: &str,
    predicate: &P,
    out: &mut QB,
) -> (r: BuildQueryResult)
    ensures
        crate::query_builder::renders(
            join_tokens(left@, keyword@, right@, predicate.tokens()),
            old(out).output(),
            final(out).output(),
            r,
        ),
{
    let ghost start = out.output();
    let ghost a = table_tokens(left@);
    let ghost b = a + sql(keyword@);
    let ghost c = b + table_tokens(right@);
    let ghost d = c + sql(" ON "@);
    proof {
        lemma_render_concat(a, sql(keyword@), start);
        lemma_render_one(Token::Sql(keyword@), render(a, start).0);
        lemma_render_concat(b, table_tokens(right@), start);
        lemma_render_concat(c, sql(" ON "@), start);
        lemma_render_one(Token::Sql(" ON "@), render(c, start).0);
        lemma_render_concat(d, predicate.tokens(), start);
    }
    out.push_identifier(left)?;
    out.push_sql(keyword);
    out.push_identifier(right)?;
    out.push_sql(" ON ");
    predicate.to_sql(out)
}

/// The rows of `left` paired with the rows of `right` that match them.
#[derive(Clone, Copy)]
pub struct InnerJoinSource<Left, Right> {
    pub left: Left,
    pub right: Right,
}

impl<Left, Right> InnerJoinSource<Left, Right> {
    pub fn new(left: Left, right: Right) -> (r: Self)
        ensures
            r.left == left,
            r.right == right,
    {
        InnerJoinSource { left: left, right: right }
    }
}

impl<Left, Right> QuerySource for InnerJoinSource<Left, Right> where
    Left: Table + JoinTo<Right>,
    Right: Table,
{
    open spec fn from_tokens(&self) -> Seq<Token> {
        join_tokens(
            <Left as Table>::spec_name(),
            " INNER JOIN "@,
            <Right as Table>::spec_name(),
            self.left.spec_join_expression().tokens(),
        )
    }

    fn from_clause<QB: QueryBuilder>(&self, out: &mut QB) -> (r: BuildQueryResult) {
        let predicate = self.left.join_expression();
        join_to_sql(<Left as Table>::name(), " INNER JOIN ", <Right as Table>::name(), &predicate, out)
    }
}

impl<Left, Right> AsQuery for InnerJoinSource<Left, Right> where
    Left: Table + JoinTo<Right>,
    Right: Table,
    (Left::AllColumns, Right::AllColumns): SelectableExpression<
        InnerJoinSource<Left, Right>,
        (<Left as AsQuery>::SqlType, <Right as AsQuery>::SqlType),
    >,
{
    type SqlType = (<Left as AsQuery>::SqlType, <Right as AsQuery>::SqlType);

    type Query = SelectStatement<
        (<Left as AsQuery>::SqlType, <Right as AsQuery>::SqlType),
        (Left::AllColumns, Right::AllColumns),
        Self,
    >;

    open spec fn spec_as_query(self) -> Self::Query {
        SelectStatement::spec_simple((Left::spec_all_columns(), Right::spec_all_columns()), self)
    }

    fn as_query(self) -> (r: Self::Query) {
        SelectStatement::simple((Left::all_columns(), Right::all_columns()), self)
    }
}

impl<Selection, Type, Left, Right> SelectDsl<Selection, Type> for InnerJoinSource<Left, Right> where
    Type: NativeSqlType,
    Selection: Expression,
    InnerJoinSource<Left, Right>: AsQuery,
    <InnerJoinSource<Left, Right> as AsQuery>::Query: SelectDsl<Selection, Type>,
{
    type Output = <<Self as AsQuery>::Query as SelectDsl<Selection, Type>>::Output;

    open spec fn spec_select(self, selection: Selection) -> Self::Output {
        self.spec_as_query().spec_select(selection)
    }

    fn select(self, selection: Selection) -> (r: Self::Output) {
        self.as_query().select(selection)
    }
}

impl<Pred, Left, Right> FilterDsl<Pred> for InnerJoinSource<Left, Right> where
    Pred: SelectableExpression<InnerJoinSource<Left, Right>, Bool>,
    InnerJoinSource<Left, Right>: AsQuery,
    <InnerJoinSource<Left, Right> as AsQuery>::Query: FilterDsl<Pred>,
{
    type Output = <<Self as AsQuery>::Query as FilterDsl<Pred>>::Output;

    open spec fn spec_filter(self, predicate: Pred) -> Self::Output {
        self.spec_as_query().spec_filter(predicate)
    }

    fn filter(self, predicate: Pred) -> (r: Self::Output) {
        self.as_query().filter(predicate)
    }
}

/// The rows of `left`, each paired with the rows of `right` that match it, or
/// with NULLs where none does.
#[derive(Clone, Copy)]
pub struct LeftOuterJoinSource<Left, Right> {
    pub left: Left,
    pub right: Right,
}

impl<Left, Right> LeftOuterJoinSource<Left, Right> {
    pub fn new(left: Left, right: Right) -> (r: Self)
        ensures
            r.left == left,
            r.right == right,
    {
        LeftOuterJoinSource { left: left, right: right }
    }
}

impl<Left, Right> QuerySource for LeftOuterJoinSource<Left, Right> where
    Left: Table + JoinTo<Right>,
    Right: Table,
{
    open spec fn from_tokens(&self) -> Seq<Token> {
        join_tokens(
            <Left as Table>::spec_name(),
            " LEFT OUTER JOIN "@,
            <Right as Table>::spec_name(),
            self.left.spec_join_expression().tokens(),
        )
    }

    fn from_clause<QB: QueryBuilder>(&self, out: &mut QB) -> (r: BuildQueryResult) {
        let predicate = self.left.join_expression();
        join_to_sql(
            <Left as Table>::name(),
            " LEFT OUTER JOIN ",
            <Right as Table>::name(),
            &predicate,
            out,
        )
    }
}

/// What a left outer join selects when nothing else is asked for: all
/// columns of the left table, then all columns of the right table, which
/// are NULL in the rows that have no match.
pub struct LeftJoined<A, B> {
    pub left: A,
    pub right: B,
}

impl<A: Expression, B: Expression> Expression for LeftJoined<A, B> {
    type SqlType = (A::SqlType, Nullable<B::SqlType>);

    open spec fn tokens(&self) -> Seq<Token> {
        crate::expression::infix(self.left.tokens(), ", "@, self.right.tokens())
    }

    fn to_sql<QB: QueryBuilder>(&self, out: &mut QB) -> (r: BuildQueryResult) {
        crate::expression::infix_to_sql(&self.left, ", ", &self.right, out)
    }
}

impl<Left, Right, A, B> SelectableExpression<LeftOuterJoinSource<Left, Right>> for LeftJoined<A, B> where
    A: SelectableExpression<Left>,
    B: SelectableExpression<Right>,
{
}

impl<Left, Right> AsQuery for LeftOuterJoinSource<Left, Right> where
    Left: Table + JoinTo<Right>,
    Right: Table,
{
    type SqlType = (
        <Left::AllColumns as Expression>::SqlType,
        Nullable<<Right::AllColumns as Expression>::SqlType>,
    );

    type Query = SelectStatement<
        (<Left::AllColumns as Expression>::SqlType, Nullable<<Right::AllColumns as Expression>::SqlType>),
        LeftJoined<Left::AllColumns, Right::AllColumns>,
        Self,
    >;

    open spec fn spec_as_query(self) -> Self::Query {
        SelectStatement::spec_simple(
            LeftJoined { left: Left::spec_all_columns(), right: Right::spec_all_columns() },
            self,
        )
    }

    fn as_query(self) -> (r: Self::Query) {
        SelectStatement::simple(
            LeftJoined { left: Left::all_columns(), right: Right::all_columns() },
            self,
        )
    }
}

impl<Selection, Type, Left, Right> SelectDsl<Selection, Type> for LeftOuterJoinSource<Left, Right> where
    Type: NativeSqlType,
    Selection: SelectableExpression<LeftOuterJoinSource<Left, Right>, Type>,
    LeftOuterJoinSource<Left, Right>: AsQuery,
    <LeftOuterJoinSource<Left, Right> as AsQuery>::Query: SelectDsl<Selection, Type>,
{
    type Output = <<Self as AsQuery>::Query as SelectDsl<Selection, Type>>::Output;

    open spec fn spec_select(self, selection: Selection) -> Self::Output {
        self.spec_as_query().spec_select(selection)
    }

    fn select(self, selection: Selection) -> (r: Self::Output) {
        self.as_query().select(selection)
    }
}

impl<Pred, Left, Right> FilterDsl<Pred> for LeftOuterJoinSource<Left, Right> where
    Pred: SelectableExpression<LeftOuterJoinSource<Left, Right>, Bool>,
    LeftOuterJoinSource<Left, Right>: AsQuery,
    <LeftOuterJoinSource<Left, Right> as AsQuery>::Query: FilterDsl<Pred>,
{
    type Output = <<Self as AsQuery>::Query as FilterDsl<Pred>>::Output;

    open spec fn spec_filter(self, predicate: Pred) -> Self::Output {
        self.spec_as_query().spec_filter(predicate)
    }

    fn filter(self, predicate: Pred) -> (r: Self::Output) {
        self.as_query().filter(predicate)
    }
}

/// Joining a table to another.
pub trait JoinDsl: Table {
    /// The rows of this table paired with the rows of `other` that match them.
    fn inner_join<T>(self, other: T) -> (r: InnerJoinSource<Self, T>) where T: Table, Self: JoinTo<T>
        ensures
            r.left == self,
            r.right == other,
    {
        InnerJoinSource::new(self, other)
    }

    /// The rows of this table, each paired with the rows of `other` that
    /// match it, or with NULLs where none does.
    fn left_outer_join<T>(self, other: T) -> (r: LeftOuterJoinSource<Self, T>) where
        T: Table,
        Self: JoinTo<T>,

        ensures
            r.left == self,
            r.right == other,
    {
        LeftOuterJoinSource::new(self, other)
    }
}

impl<S: Table> JoinDsl for S {
}

} // verus!
