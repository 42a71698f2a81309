use vstd::prelude::*;
use std::marker::PhantomData;
use crate::query_builder::{BuildQueryResult, QueryBuilder, Token, lemma_render_one};
use crate::types::NativeSqlType;
use super::{Expression, NonAggregate, SelectableExpression, sql};

verus! {

/// A piece of SQL text that is taken as an expression of the SQL type `ST`
/// and written as it stands.
pub struct SqlLiteral<ST> {
    pub sql: String,
    pub _marker: PhantomData<ST>,
}

impl<ST> SqlLiteral<ST> {
    pub fn new(sql: String) -> (r: Self)
        ensures
            r.sql == sql,
    {
        SqlLiteral { sql, _marker: PhantomData }
    }
}

impl<ST: NativeSqlType> Expression for SqlLiteral<ST> {
    type SqlType = ST;

    open spec fn tokens(&self) -> Seq<Token> {
        sql(self.sql@)
    }

    fn to_sql<QB: QueryBuilder>(&self, out: &mut QB) -> (r: BuildQueryResult) {
        proof {
            lemma_render_one(Token::Sql(self.sql@), out.output());
        }
        out.push_sql(self.sql.as_str());
        Ok(())
    }
}

impl<QS, ST: NativeSqlType> SelectableExpression<QS> for SqlLiteral<ST> {
}

impl<ST: NativeSqlType> NonAggregate for SqlLiteral<ST> {
}

} // verus!
