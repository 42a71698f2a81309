use vstd::prelude::*;
use std::marker::PhantomData;
use crate::expression::{Expression, NonAggregate, SelectableExpression};
use crate::query_builder::{
    AsQuery, BuildQueryResult, QueryBuilder, SelectStatement, Token,
};
use crate::query_source::{
    Column, InnerJoinSource, JoinTo, QuerySource, Table, column_to_sql, column_tokens, star_to_sql, star_tokens,
    table_to_sql, table_tokens,
};
use crate::types::{Bool, NativeSqlType};

verus! {

/// An expression that is fixed by its type alone, as the columns of a schema
/// are: the library can make one where it needs one.
pub trait SchemaExpression: Expression {
    spec fn spec_build() -> Self;

    fn build() -> (r: Self)
        ensures
            r == Self::spec_build(),
    ;
}

/// The declaration of a table: its name, the SQL type of its rows, its
/// primary key and the list of all its columns. A type that declares a table
/// is that table.
pub trait TableDef: Sized {
    const NAME: &'static str;

    type SqlType: NativeSqlType;

    type PrimaryKey: SchemaExpression + NonAggregate;

    type AllColumns: SchemaExpression<SqlType = Self::SqlType> + SelectableExpression<Self>;
}

/// The declaration of a column: its table, its name and its SQL type. The
/// column itself is `Col` of the type that declares it.
pub trait ColumnDef {
    type Table: TableDef;

    type SqlType: NativeSqlType;

    const NAME: &'static str;
}

/// The declaration that a table can be joined to the table `T`, and on which predicate.
pub trait JoinDef<T: TableDef>: TableDef {
    type Predicate: SchemaExpression<SqlType = Bool>;
}

/// A declared column can be selected from the source `QS`. It can always be
/// selected from its own table.
pub trait AppearsIn<QS> {
}

impl<D: ColumnDef> AppearsIn<D::Table> for D {
}

/// The column that `D` declares.
pub struct Col<D> {
    pub _marker: PhantomData<D>,
}

impl<D> Col<D> {
    pub open spec fn spec_new() -> Self {
        Col { _marker: PhantomData }
    }

    pub fn new() -> (r: Self)
        ensures
            r == Self::spec_new(),
    {
        Col { _marker: PhantomData }
    }
}

impl<D> Clone for Col<D> {
    fn clone(&self) -> (r: Self)
        ensures
            r == *self,
    {
        Col { _marker: PhantomData }
    }
}

impl<D> Copy for Col<D> {
}

impl<D: ColumnDef> Expression for Col<D> {
    type SqlType = D::SqlType;

    open spec fn tokens(&self) -> Seq<Token> {
        column_tokens(<D::Table as TableDef>::NAME@, D::NAME@)
    }

    fn to_sql<QB: QueryBuilder>(&self, out: &mut QB) -> (r: BuildQueryResult) {
        column_to_sql(<D::Table as TableDef>::NAME, D::NAME, out)
    }
}

impl<D: ColumnDef> SchemaExpression for Col<D> {
    open spec fn spec_build() -> Self {
        Col::spec_new()
    }

    fn build() -> (r: Self) {
        Col::new()
    }
}

impl<D: ColumnDef> Column for Col<D> {
    type Table = D::Table;

    open spec fn spec_name() -> Seq<char> {
        D::NAME@
    }

    fn name() -> (r: &'static str) {
        D::NAME
    }
}

impl<D: ColumnDef + AppearsIn<QS>, QS> SelectableExpression<QS> for Col<D> {
}

impl<D: ColumnDef> NonAggregate for Col<D> {
}

/// All columns of the table `T`, written `table.*`.
pub struct Star<T> {
    pub _marker: PhantomData<T>,
}

impl<T> Star<T> {
    pub open spec fn spec_new() -> Self {
        Star { _marker: PhantomData }
    }

    pub fn new() -> (r: Self)
        ensures
            r == Self::spec_new(),
    {
        Star { _marker: PhantomData }
    }
}

impl<T: TableDef> Expression for Star<T> {
    type SqlType = T::SqlType;

    open spec fn tokens(&self) -> Seq<Token> {
        star_tokens(T::NAME@)
    }

    fn to_sql<QB: QueryBuilder>(&self, out: &mut QB) -> (r: BuildQueryResult) {
        star_to_sql(T::NAME, out)
    }
}

impl<T: TableDef> SchemaExpression for Star<T> {
    open spec fn spec_build() -> Self {
        Star::spec_new()
    }

    fn build() -> (r: Self) {
        Star::new()
    }
}

impl<T: TableDef> SelectableExpression<T> for Star<T> {
}

impl<T: TableDef, R> SelectableExpression<InnerJoinSource<T, R>> for Star<T> {
}

impl<T: TableDef> NonAggregate for Star<T> {
}

impl<T: TableDef> QuerySource for T {
    open spec fn from_tokens(&self) -> Seq<Token> {
        table_tokens(T::NAME@)
    }

    fn from_clause<QB: QueryBuilder>(&self, out: &mut QB) -> (r: BuildQueryResult) {
        table_to_sql(T::NAME, out)
    }
}

impl<T: TableDef> AsQuery for T {
    type SqlType = <T as TableDef>::SqlType;

    type Query = SelectStatement<<T as TableDef>::SqlType, T::AllColumns, T>;

    open spec fn spec_as_query(self) -> Self::Query {
        SelectStatement::spec_simple(T::AllColumns::spec_build(), self)
    }

    fn as_query(self) -> (r: Self::Query) {
        SelectStatement::simple(T::AllColumns::build(), self)
    }
}

impl<T: TableDef> Table for T {
    type PrimaryKey = <T as TableDef>::PrimaryKey;

    type AllColumns = <T as TableDef>::AllColumns;

    open spec fn spec_name() -> Seq<char> {
        T::NAME@
    }

    open spec fn spec_primary_key(&self) -> Self::PrimaryKey {
        <T as TableDef>::PrimaryKey::spec_build()
    }

    open spec fn spec_all_columns() -> Self::AllColumns {
        <T as TableDef>::AllColumns::spec_build()
    }

    fn name() -> (r: &'static str) {
        T::NAME
    }

    fn primary_key(&self) -> (r: Self::PrimaryKey) {
        <T as TableDef>::PrimaryKey::build()
    }

    fn all_columns() -> (r: Self::AllColumns) {
        <T as TableDef>::AllColumns::build()
    }
}

impl<L: JoinDef<R>, R: TableDef> JoinTo<R> for L {
    type Predicate = <L as JoinDef<R>>::Predicate;

    open spec fn spec_join_expression(&self) -> Self::Predicate {
        <L as JoinDef<R>>::Predicate::spec_build()
    }

    fn join_expression(&self) -> (r: Self::Predicate) {
        <L as JoinDef<R>>::Predicate::build()
    }
}

impl<L: SchemaExpression, R: SchemaExpression> SchemaExpression for crate::expression::predicates::Eq<L, R> {
    open spec fn spec_build() -> Self {
        crate::expression::predicates::Eq { left: L::spec_build(), right: R::spec_build() }
    }

    fn build() -> (r: Self) {
        crate::expression::predicates::Eq::new(L::build(), R::build())
    }
}

impl<A: SchemaExpression, B: SchemaExpression> SchemaExpression for (A, B) {
    open spec fn spec_build() -> Self {
        (A::spec_build(), B::spec_build())
    }

    fn build() -> (r: Self) {
        (A::build(), B::build())
    }
}

impl<A: SchemaExpression, B: SchemaExpression, C: SchemaExpression> SchemaExpression for (A, B, C) {
    open spec fn spec_build() -> Self {
        (A::spec_build(), B::spec_build(), C::spec_build())
    }

    fn build() -> (r: Self) {
        (A::build(), B::build(), C::build())
    }
}

impl<A, B, C, D> SchemaExpression for (A, B, C, D) where
    A: SchemaExpression,
    B: SchemaExpression,
    C: SchemaExpression,
    D: SchemaExpression,
{
    open spec fn spec_build() -> Self {
        (A::spec_build(), B::spec_build(), C::spec_build(), D::spec_build())
    }

    fn build() -> (r: Self) {
        (A::build(), B::build(), C::build(), D::build())
    }
}

} // verus!
