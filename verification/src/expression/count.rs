use vstd::prelude::*;
use crate::query_builder::{BuildQueryResult, QueryBuilder, Token, lemma_render_one};
use crate::types::BigInt;
use super::{Expression, SelectableExpression, sql, wrapped, wrapped_to_sql};

verus! {

/// The number of rows in which the expression is not NULL.
pub fn count<T: Expression>(t: T) -> (r: Count<T>)
    ensures
        r.target == t,
{
    Count { target: t }
}

/// The number of rows.
pub fn count_star() -> (r: CountStar)
    ensures
        r == CountStar,
{
    CountStar
}

#[derive(Debug, Clone, Copy)]
pub struct Count<T: Expression> {
    pub target: T,
}

impl<T: Expression> Expression for Count<T> {
    type SqlType = BigInt;

    open spec fn tokens(&self) -> Seq<Token> {
        wrapped("COUNT("@, self.target.tokens(), ")"@)
    }

    fn to_sql<QB: QueryBuilder>(&self, out: &mut QB) -> (r: BuildQueryResult) {
        wrapped_to_sql("COUNT(", &self.target, ")", out)
    }
}

impl<T: Expression, QS> SelectableExpression<QS> for Count<T> {
}

#[derive(Debug, Clone, Copy)]
pub struct CountStar;

impl Expression for CountStar {
    type SqlType = BigInt;

    open spec fn tokens(&self) -> Seq<Token> {
        sql("COUNT(*)"@)
    }

    fn to_sql<QB: QueryBuilder>(&self, out: &mut QB) -> (r: BuildQueryResult) {
        proof {
            lemma_render_one(Token::Sql("COUNT(*)"@), out.output());
        }
        out.push_sql("COUNT(*)");
        Ok(())
    }
}

impl<QS> SelectableExpression<QS> for CountStar {
}

} // verus!
