use vstd::prelude::*;
use crate::query_builder::{BuildQueryResult, QueryBuilder, Token, lemma_render_concat, lemma_render_one};
use super::{Expression, SelectableExpression, render_of, sql};

verus! {

/// An expression to order by, greatest first.
#[derive(Debug, Clone, Copy)]
pub struct Desc<T> {
    pub expr: T,
}

impl<T> Desc<T> {
    pub fn new(expr: T) -> (r: Self)
        ensures
            r.expr == expr,
    {
        Desc { expr }
    }
}

impl<T: Expression> Expression for Desc<T> {
    type SqlType = ();

    open spec fn tokens(&self) -> Seq<Token> {
        self.expr.tokens() + sql(" DESC"@)
    }

    fn to_sql<QB: QueryBuilder>(&self, out: &mut QB) -> (r: BuildQueryResult) {
        let ghost start = out.output();
        proof {
            lemma_render_concat(self.expr.tokens(), sql(" DESC"@), start);
            lemma_render_one(Token::Sql(" DESC"@), render_of(self.expr.tokens(), start));
        }
        self.expr.to_sql(out)?;
        out.push_sql(" DESC");
        Ok(())
    }
}

impl<T: SelectableExpression<QS>, QS> SelectableExpression<QS> for Desc<T> where Desc<T>: Expression {
}

} // verus!
