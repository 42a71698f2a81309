pub mod joins;

use vstd::prelude::*;
use crate::expression::{Expression, NonAggregate, SelectableExpression};
use crate::query_builder::{
    AsQuery, BuildQueryResult, QueryBuilder, Token, lemma_render_concat, lemma_render_one, render,
    renders,
};
use crate::types::{
    BigInt, BigSerial, Binary, Bool, FromSql, FromSqlRow, Integer, NativeSqlType, Nullable, Serial,
    SmallInt, SmallSerial, Text, VarChar,
};

pub use self::joins::{InnerJoinSource, JoinTo, LeftOuterJoinSource};

verus! {

/// A record that is built from a row of the SQL type `ST`: the row is read
/// as a `Row`, and the record is made of that.
pub trait Queriable<ST: NativeSqlType>: Sized {
    type Row: FromSqlRow<ST>;

    fn build(row: Self::Row) -> Self;
}

impl Queriable<SmallInt> for i16 {
    type Row = Self;

    fn build(row: Self::Row) -> Self
        returns
            row,
    {
        row
    }
}

impl Queriable<SmallSerial> for i16 {
    type Row = Self;

    fn build(row: Self::Row) -> Self
        returns
            row,
    {
        row
    }
}

impl Queriable<Integer> for i32 {
    type Row = Self;

    fn build(row: Self::Row) -> Self
        returns
            row,
    {
        row
    }
}

impl Queriable<Serial> for i32 {
    type Row = Self;

    fn build(row: Self::Row) -> Self
        returns
            row,
    {
        row
    }
}

impl Queriable<BigInt> for i64 {
    type Row = Self;

    fn build(row: Self::Row) -> Self
        returns
            row,
    {
        row
    }
}

impl Queriable<BigSerial> for i64 {
    type Row = Self;

    fn build(row: Self::Row) -> Self
        returns
            row,
    {
        row
    }
}

impl Queriable<Bool> for bool {
    type Row = Self;

    fn build(row: Self::Row) -> Self
        returns
            row,
    {
        row
    }
}

impl Queriable<VarChar> for String {
    type Row = Self;

    fn build(row: Self::Row) -> Self
        returns
            row,
    {
        row
    }
}

impl Queriable<Text> for String {
    type Row = Self;

    fn build(row: Self::Row) -> Self
        returns
            row,
    {
        row
    }
}

impl Queriable<Binary> for Vec<u8> {
    type Row = Self;

    fn build(row: Self::Row) -> Self
        returns
            row,
    {
        row
    }
}

impl<ST, T> Queriable<Nullable<ST>> for Option<T> where
    ST: NativeSqlType,
    T: Queriable<ST>,
    T::Row: FromSql<ST>,
{
    type Row = Option<T::Row>;

    fn build(row: Self::Row) -> (r: Self)
        ensures
            match row {
                Some(inner) => r matches Some(record) && call_ensures(
                    <T as Queriable<ST>>::build,
                    (inner,),
                    record,
                ),
                None => r is None,
            },
    {
        match row {
            Some(inner) => Some(T::build(inner)),
            None => None,
        }
    }
}

impl<SA, SB, TA, TB> Queriable<(SA, SB)> for (TA, TB) where
    SA: NativeSqlType,
    SB: NativeSqlType,
    TA: Queriable<SA>,
    TB: Queriable<SB>,
{
    type Row = (TA::Row, TB::Row);

    fn build(row: Self::Row) -> (r: Self)
        ensures
            call_ensures(<TA as Queriable<SA>>::build, (row.0,), r.0),
            call_ensures(<TB as Queriable<SB>>::build, (row.1,), r.1),
    {
        (TA::build(row.0), TB::build(row.1))
    }
}

impl<SA, SB, SC, TA, TB, TC> Queriable<(SA, SB, SC)> for (TA, TB, TC) where
    SA: NativeSqlType,
    SB: NativeSqlType,
    SC: NativeSqlType,
    TA: Queriable<SA>,
    TB: Queriable<SB>,
    TC: Queriable<SC>,
{
    type Row = (TA::Row, TB::Row, TC::Row);

    fn build(row: Self::Row) -> (r: Self)
        ensures
            call_ensures(<TA as Queriable<SA>>::build, (row.0,), r.0),
            call_ensures(<TB as Queriable<SB>>::build, (row.1,), r.1),
            call_ensures(<TC as Queriable<SC>>::build, (row.2,), r.2),
    {
        (TA::build(row.0), TB::build(row.1), TC::build(row.2))
    }
}

impl<SA, SB, SC, SD, TA, TB, TC, TD> Queriable<(SA, SB, SC, SD)> for (TA, TB, TC, TD) where
    SA: NativeSqlType,
    SB: NativeSqlType,
    SC: NativeSqlType,
    SD: NativeSqlType,
    TA: Queriable<SA>,
    TB: Queriable<SB>,
    TC: Queriable<SC>,
    TD: Queriable<SD>,
{
    type Row = (TA::Row, TB::Row, TC::Row, TD::Row);

    fn build(row: Self::Row) -> (r: Self)
        ensures
            call_ensures(<TA as Queriable<SA>>::build, (row.0,), r.0),
            call_ensures(<TB as Queriable<SB>>::build, (row.1,), r.1),
            call_ensures(<TC as Queriable<SC>>::build, (row.2,), r.2),
            call_ensures(<TD as Queriable<SD>>::build, (row.3,), r.3),
    {
        (TA::build(row.0), TB::build(row.1), TC::build(row.2), TD::build(row.3))
    }
}

/// What a statement selects from: a table or a join.
pub trait QuerySource: Sized {
    /// The steps that rendering the FROM fragment takes, in order.
    spec fn from_tokens(&self) -> Seq<Token>;

    fn from_clause<QB: QueryBuilder>(&self, out: &mut QB) -> (r: BuildQueryResult)
        ensures
            renders(self.from_tokens(), old(out).output(), final(out).output(), r),
    ;
}

/// A column of a table: an expression that has a name.
pub trait Column: Expression {
    type Table: Table;

    spec fn spec_name() -> Seq<char>;

    fn name() -> (r: &'static str)
        ensures
            r@ == Self::spec_name(),
    ;
}

/// A table: a source that has a name, a primary key and a list of all its columns.
pub trait Table: QuerySource + AsQuery + Sized {
    type PrimaryKey: Expression + NonAggregate;

    type AllColumns: SelectableExpression<Self>;

    spec fn spec_name() -> Seq<char>;

    spec fn spec_primary_key(&self) -> Self::PrimaryKey;

    spec fn spec_all_columns() -> Self::AllColumns;

    fn name() -> (r: &'static str)
        ensures
            r@ == Self::spec_name(),
    ;

    fn primary_key(&self) -> (r: Self::PrimaryKey)
        ensures
            r == self.spec_primary_key(),
    ;

    fn all_columns() -> (r: Self::AllColumns)
        ensures
            r == Self::spec_all_columns(),
    ;
}

/// The tokens of a table's name where a source is expected.
pub open spec fn table_tokens(table: Seq<char>) -> Seq<Token> {
    seq![Token::Identifier(table)]
}

/// The tokens of a column that is qualified by its table: `table.column`.
pub open spec fn column_tokens(table: Seq<char>, column: Seq<char>) -> Seq<Token> {
    seq![Token::Identifier(table), Token::Sql("."@), Token::Identifier(column)]
}

/// The tokens of all columns of a table: `table.*`.
pub open spec fn star_tokens(table: Seq<char>) -> Seq<Token> {
    seq![Token::Identifier(table), Token::Sql(".*"@)]
}

/// Renders a table's name where a source is expected.
pub fn table_to_sql<QB: QueryBuilder>(table: &str, out: &mut QB) -> (r: BuildQueryResult)
    ensures
        renders(table_tokens(table@), old(out).output(), final(out).output(), r),
{
    out.push_identifier(table)
}

/// Renders a column qualified by its table.
pub fn column_to_sql<QB: QueryBuilder>(table: &str, column: &str, out: &mut QB) -> (r: BuildQueryResult)
    ensures
        renders(column_tokens(table@, column@), old(out).output(), final(out).output(), r),
{
    let ghost start = out.output();
    let ghost first = seq![Token::Identifier(table@)];
    let ghost dot = seq![Token::Sql("."@)];
    let ghost last = seq![Token::Identifier(column@)];
    proof {
        assert(column_tokens(table@, column@) =~= first + dot + last);
        lemma_render_concat(first, dot, start);
        lemma_render_concat(first + dot, last, start);
        lemma_render_one(Token::Sql("."@), render(first, start).0);
    }
    out.push_identifier(table)?;
    out.push_sql(".");
    out.push_identifier(column)
}

/// Renders all columns of a table.
pub fn star_to_sql<QB: QueryBuilder>(table: &str, out: &mut QB) -> (r: BuildQueryResult)
    ensures
        renders(star_tokens(table@), old(out).output(), final(out).output(), r),
{
    let ghost start = out.output();
    let ghost first = seq![Token::Identifier(table@)];
    let ghost star = seq![Token::Sql(".*"@)];
    proof {
        assert(star_tokens(table@) =~= first + star);
        lemma_render_concat(first, star, start);
        lemma_render_one(Token::Sql(".*"@), render(first, start).0);
    }
    out.push_identifier(table)?;
    out.push_sql(".*");
    Ok(())
}

} // verus!
