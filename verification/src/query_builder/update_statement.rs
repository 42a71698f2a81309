use vstd::prelude::*;
use crate::expression::{Expression, SelectableExpression, sql};
use crate::query_source::{Column, QuerySource, Table, table_tokens};
use crate::types::Bool;
use super::{
    AsQuery, BuildQueryResult, Query, QueryBuilder, QueryFragment, SelectStatement, Token,
    lemma_render_concat, lemma_render_one, render, renders,
};

verus! {

/// What an UPDATE statement changes: a table, or the rows of a table that a
/// predicate keeps.
pub trait UpdateTarget {
    type Table: Table;

    /// The steps that rendering the WHERE clause takes; none for a whole table.
    spec fn where_tokens(&self) -> Seq<Token>;

    fn where_clause<QB: QueryBuilder>(&self, out: &mut QB) -> (r: BuildQueryResult)
        ensures
            renders(self.where_tokens(), old(out).output(), final(out).output(), r),
    ;

    /// The table whose rows are changed.
    spec fn spec_table(&self) -> &Self::Table;

    fn table(&self) -> (r: &Self::Table)
        ensures
            r == self.spec_table(),
    ;
}

impl<T: Table> UpdateTarget for T {
    type Table = Self;

    open spec fn where_tokens(&self) -> Seq<Token> {
        Seq::empty()
    }

    open spec fn spec_table(&self) -> &Self::Table {
        self
    }

    fn where_clause<QB: QueryBuilder>(&self, _out: &mut QB) -> (r: BuildQueryResult) {
        Ok(())
    }

    fn table(&self) -> (r: &Self::Table) {
        self
    }
}

impl<ST, S, F, W> UpdateTarget for SelectStatement<ST, S, F, W> where
    F: Table,
    W: SelectableExpression<F, Bool>,
{
    type Table = F;

    open spec fn where_tokens(&self) -> Seq<Token> {
        sql(" WHERE "@) + self.where_clause.tokens()
    }

    open spec fn spec_table(&self) -> &Self::Table {
        &self.from
    }

    fn where_clause<QB: QueryBuilder>(&self, out: &mut QB) -> (r: BuildQueryResult) {
        proof {
            lemma_render_one(Token::Sql(" WHERE "@), out.output());
            lemma_render_concat(sql(" WHERE "@), self.where_clause.tokens(), out.output());
        }
        out.push_sql(" WHERE ");
        self.where_clause.to_sql(out)
    }

    fn table(&self) -> (r: &Self::Table) {
        &self.from
    }
}

/// The assignments of an UPDATE statement.
pub trait Changeset {
    /// The steps that rendering the assignments takes, in order.
    spec fn assignment_tokens(&self) -> Seq<Token>;

    fn to_sql<QB: QueryBuilder>(&self, out: &mut QB) -> (r: BuildQueryResult)
        ensures
            renders(self.assignment_tokens(), old(out).output(), final(out).output(), r),
    ;
}

/// The tokens of `column = value`, the column by its name alone.
pub open spec fn assignment(column: Seq<char>, value: Seq<Token>) -> Seq<Token> {
    seq![Token::Identifier(column)] + sql(" = "@) + value
}

impl<C, R> Changeset for crate::expression::predicates::Eq<C, R> where
    C: Column,
    R: Expression<SqlType = <C as Expression>::SqlType>,
{
    open spec fn assignment_tokens(&self) -> Seq<Token> {
        assignment(C::spec_name(), self.right.tokens())
    }

    fn to_sql<QB: QueryBuilder>(&self, out: &mut QB) -> (r: BuildQueryResult) {
        let ghost start = out.output();
        let ghost name = seq![Token::Identifier(C::spec_name())];
        proof {
            lemma_render_concat(name, sql(" = "@), start);
            lemma_render_one(Token::Sql(" = "@), render(name, start).0);
            lemma_render_concat(name + sql(" = "@), self.right.tokens(), start);
        }
        out.push_identifier(C::name())?;
        out.push_sql(" = ");
        self.right.to_sql(out)
    }
}

impl<A: Changeset, B: Changeset> Changeset for (A, B) {
    open spec fn assignment_tokens(&self) -> Seq<Token> {
        self.0.assignment_tokens() + sql(", "@) + self.1.assignment_tokens()
    }

    fn to_sql<QB: QueryBuilder>(&self, out: &mut QB) -> (r: BuildQueryResult) {
        let ghost start = out.output();
        let ghost first = self.0.assignment_tokens();
        proof {
            lemma_render_concat(first, sql(", "@), start);
            lemma_render_one(Token::Sql(", "@), render(first, start).0);
            lemma_render_concat(first + sql(", "@), self.1.assignment_tokens(), start);
        }
        self.0.to_sql(out)?;
        out.push_sql(", ");
        self.1.to_sql(out)
    }
}

impl<A: Changeset, B: Changeset, C: Changeset> Changeset for (A, B, C) {
    open spec fn assignment_tokens(&self) -> Seq<Token> {
        self.0.assignment_tokens() + sql(", "@) + self.1.assignment_tokens() + sql(", "@)
            + self.2.assignment_tokens()
    }

    fn to_sql<QB: QueryBuilder>(&self, out: &mut QB) -> (r: BuildQueryResult) {
        let ghost start = out.output();
        let ghost first = self.0.assignment_tokens();
        let ghost second = first + sql(", "@) + self.1.assignment_tokens();
        proof {
            lemma_render_concat(first, sql(", "@), start);
            lemma_render_one(Token::Sql(", "@), render(first, start).0);
            lemma_render_concat(first + sql(", "@), self.1.assignment_tokens(), start);
            lemma_render_concat(second, sql(", "@), start);
            lemma_render_one(Token::Sql(", "@), render(second, start).0);
            lemma_render_concat(second + sql(", "@), self.2.assignment_tokens(), start);
        }
        self.0.to_sql(out)?;
        out.push_sql(", ");
        self.1.to_sql(out)?;
        out.push_sql(", ");
        self.2.to_sql(out)
    }
}

/// An UPDATE statement: what it changes, and the assignments.
pub struct UpdateStatement<T, U> {
    pub target: T,
    pub changes: U,
}

/// The tokens of `UPDATE table SET assignments` and the WHERE clause, if any.
pub open spec fn update_tokens(table: Seq<char>, assignments: Seq<Token>, predicate: Seq<Token>) -> Seq<
    Token,
> {
    sql("UPDATE "@) + table_tokens(table) + sql(" SET "@) + assignments + predicate
}

impl<T: UpdateTarget, U: Changeset> QueryFragment for UpdateStatement<T, U> {
    open spec fn tokens(&self) -> Seq<Token> {
        update_tokens(
            <T::Table as Table>::spec_name(),
            self.changes.assignment_tokens(),
            self.target.where_tokens(),
        )
    }

    fn to_sql<QB: QueryBuilder>(&self, out: &mut QB) -> (r: BuildQueryResult) {
        let ghost start = out.output();
        let ghost a = sql("UPDATE "@);
        let ghost b = a + table_tokens(<T::Table as Table>::spec_name());
        let ghost c = b + sql(" SET "@);
        let ghost d = c + self.changes.assignment_tokens();
        proof {
            lemma_render_one(Token::Sql("UPDATE "@), start);
            lemma_render_concat(a, table_tokens(<T::Table as Table>::spec_name()), start);
            lemma_render_concat(b, sql(" SET "@), start);
            lemma_render_one(Token::Sql(" SET "@), render(b, start).0);
            lemma_render_concat(c, self.changes.assignment_tokens(), start);
            lemma_render_concat(d, self.target.where_tokens(), start);
        }
        out.push_sql("UPDATE ");
        out.push_identifier(<T::Table as Table>::name())?;
        out.push_sql(" SET ");
        self.changes.to_sql(out)?;
        self.target.where_clause(out)
    }
}

/// An UPDATE statement that returns the rows it changed, with all the
/// columns of their table.
pub struct ReturningUpdate<T, U> {
    pub statement: UpdateStatement<T, U>,
}

impl<T: UpdateTarget, U: Changeset> QueryFragment for ReturningUpdate<T, U> {
    open spec fn tokens(&self) -> Seq<Token> {
        self.statement.tokens() + sql(" RETURNING "@) + <T::Table as Table>::spec_all_columns().tokens()
    }

    fn to_sql<QB: QueryBuilder>(&self, out: &mut QB) -> (r: BuildQueryResult) {
        let ghost start = out.output();
        let ghost update = self.statement.tokens();
        let ghost columns = <T::Table as Table>::spec_all_columns().tokens();
        proof {
            lemma_render_concat(update, sql(" RETURNING "@), start);
            lemma_render_one(Token::Sql(" RETURNING "@), render(update, start).0);
            lemma_render_concat(update + sql(" RETURNING "@), columns, start);
        }
        self.statement.to_sql(out)?;
        out.push_sql(" RETURNING ");
        <T::Table as Table>::all_columns().to_sql(out)
    }
}

impl<T: UpdateTarget, U: Changeset> Query for ReturningUpdate<T, U> {
    type SqlType = <<T::Table as Table>::AllColumns as Expression>::SqlType;
}

impl<T: UpdateTarget, U: Changeset> AsQuery for UpdateStatement<T, U> {
    type SqlType = <<T::Table as Table>::AllColumns as Expression>::SqlType;

    type Query = ReturningUpdate<T, U>;

    open spec fn spec_as_query(self) -> Self::Query {
        ReturningUpdate { statement: self }
    }

    fn as_query(self) -> (r: Self::Query) {
        ReturningUpdate { statement: self }
    }
}

/// What gives the assignments of an UPDATE statement: the assignments
/// themselves, or a record that knows which of its fields go to which column.
pub trait AsChangeset {
    type Changeset: Changeset;

    fn as_changeset(self) -> Self::Changeset;
}

impl<C, R> AsChangeset for crate::expression::predicates::Eq<C, R> where
    C: Column,
    R: Expression<SqlType = <C as Expression>::SqlType>,
{
    type Changeset = Self;

    fn as_changeset(self) -> (r: Self)
        ensures
            r == self,
    {
        self
    }
}

impl<A: Changeset, B: Changeset> AsChangeset for (A, B) {
    type Changeset = Self;

    fn as_changeset(self) -> (r: Self)
        ensures
            r == self,
    {
        self
    }
}

impl<A: Changeset, B: Changeset, C: Changeset> AsChangeset for (A, B, C) {
    type Changeset = Self;

    fn as_changeset(self) -> (r: Self)
        ensures
            r == self,
    {
        self
    }
}

/// A fragment that is an UPDATE statement on the source `Source`.
pub trait UpdateQuery: QueryFragment {
    type Source: QuerySource;
}

impl<T: UpdateTarget, U: Changeset> UpdateQuery for UpdateStatement<T, U> {
    type Source = T::Table;
}

/// What can be turned into an UPDATE statement, given the assignments.
pub trait AsUpdateQuery<Updates> {
    type UpdateQuery: UpdateQuery;

    spec fn spec_as_update_query(self, updates: Updates) -> Self::UpdateQuery;

    fn as_update_query(self, updates: Updates) -> (r: Self::UpdateQuery)
        ensures
            r == self.spec_as_update_query(updates),
    ;
}

impl<T: UpdateTarget, U: Changeset> AsUpdateQuery<U> for T {
    type UpdateQuery = UpdateStatement<T, U>;

    open spec fn spec_as_update_query(self, updates: U) -> Self::UpdateQuery {
        UpdateStatement { target: self, changes: updates }
    }

    fn as_update_query(self, updates: U) -> (r: Self::UpdateQuery) {
        UpdateStatement { target: self, changes: updates }
    }
}

/// An UPDATE statement that has no assignments yet.
pub struct IncompleteUpdateStatement<T>(pub T);

/// Begins an UPDATE statement on a table, or on the rows of a table that a
/// predicate keeps.
pub fn update<T: UpdateTarget>(source: T) -> (r: IncompleteUpdateStatement<T>)
    ensures
        r.0 == source,
{
    IncompleteUpdateStatement(source)
}

impl<T: UpdateTarget> IncompleteUpdateStatement<T> {
    /// The statement with the assignments that `values` gives.
    pub fn set<U: AsChangeset>(self, values: U) -> (r: UpdateStatement<T, U::Changeset>)
        ensures
            r.target == self.0,
            call_ensures(<U as AsChangeset>::as_changeset, (values,), r.changes),
    {
        self.set_changes(values.as_changeset())
    }

    /// The statement with its assignments.
    pub fn set_changes<U: Changeset>(self, changes: U) -> (r: UpdateStatement<T, U>)
        ensures
            r.target == self.0,
            r.changes == changes,
    {
        UpdateStatement { target: self.0, changes: changes }
    }
}

} // verus!
