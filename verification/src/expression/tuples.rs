use vstd::prelude::*;
use crate::query_builder::{BuildQueryResult, QueryBuilder, Token, lemma_render_concat, lemma_render_one};
use super::{Expression, NonAggregate, SelectableExpression, render_of, sql};

verus! {

/// The tokens of `first, second`.
pub open spec fn listed(first: Seq<Token>, second: Seq<Token>) -> Seq<Token> {
    first + sql(", "@) + second
}

impl<A: Expression, B: Expression> Expression for (A, B) {
    type SqlType = (A::SqlType, B::SqlType);

    open spec fn tokens(&self) -> Seq<Token> {
        listed(self.0.tokens(), self.1.tokens())
    }

    fn to_sql<QB: QueryBuilder>(&self, out: &mut QB) -> (r: BuildQueryResult) {
        let ghost start = out.output();
        proof {
            lemma_render_concat(self.0.tokens(), sql(", "@), start);
            lemma_render_one(Token::Sql(", "@), render_of(self.0.tokens(), start));
            lemma_render_concat(self.0.tokens() + sql(", "@), self.1.tokens(), start);
        }
        self.0.to_sql(out)?;
        out.push_sql(", ");
        self.1.to_sql(out)
    }
}

impl<A: SelectableExpression<QS>, B: SelectableExpression<QS>, QS> SelectableExpression<QS> for (A, B) {
}

impl<A: NonAggregate, B: NonAggregate> NonAggregate for (A, B) {
}

impl<A: Expression, B: Expression, C: Expression> Expression for (A, B, C) {
    type SqlType = (A::SqlType, B::SqlType, C::SqlType);

    open spec fn tokens(&self) -> Seq<Token> {
        listed(listed(self.0.tokens(), self.1.tokens()), self.2.tokens())
    }

    fn to_sql<QB: QueryBuilder>(&self, out: &mut QB) -> (r: BuildQueryResult) {
        let ghost start = out.output();
        proof {
            lemma_render_concat(self.0.tokens(), sql(", "@), start);
            lemma_render_one(Token::Sql(", "@), render_of(self.0.tokens(), start));
            lemma_render_concat(self.0.tokens() + sql(", "@), self.1.tokens(), start);
            lemma_render_concat(listed(self.0.tokens(), self.1.tokens()), sql(", "@), start);
            lemma_render_one(Token::Sql(", "@), render_of(listed(self.0.tokens(), self.1.tokens()), start));
            lemma_render_concat(listed(self.0.tokens(), self.1.tokens()) + sql(", "@), self.2.tokens(), start);
        }
        self.0.to_sql(out)?;
        out.push_sql(", ");
        self.1.to_sql(out)?;
        out.push_sql(", ");
        self.2.to_sql(out)
    }
}

impl<A: SelectableExpression<QS>, B: SelectableExpression<QS>, C: SelectableExpression<QS>, QS> SelectableExpression<QS> for (A, B, C) {
}

impl<A: NonAggregate, B: NonAggregate, C: NonAggregate> NonAggregate for (A, B, C) {
}

impl<A: Expression, B: Expression, C: Expression, D: Expression> Expression for (A, B, C, D) {
    type SqlType = (A::SqlType, B::SqlType, C::SqlType, D::SqlType);

    open spec fn tokens(&self) -> Seq<Token> {
        listed(listed(listed(self.0.tokens(), self.1.tokens()), self.2.tokens()), self.3.tokens())
    }

    fn to_sql<QB: QueryBuilder>(&self, out: &mut QB) -> (r: BuildQueryResult) {
        let ghost start = out.output();
        proof {
            lemma_render_concat(self.0.tokens(), sql(", "@), start);
            lemma_render_one(Token::Sql(", "@), render_of(self.0.tokens(), start));
            lemma_render_concat(self.0.tokens() + sql(", "@), self.1.tokens(), start);
            lemma_render_concat(listed(self.0.tokens(), self.1.tokens()), sql(", "@), start);
            lemma_render_one(Token::Sql(", "@), render_of(listed(self.0.tokens(), self.1.tokens()), start));
            lemma_render_concat(listed(self.0.tokens(), self.1.tokens()) + sql(", "@), self.2.tokens(), start);
            lemma_render_concat(listed(listed(self.0.tokens(), self.1.tokens()), self.2.tokens()), sql(", "@), start);
            lemma_render_one(Token::Sql(", "@), render_of(listed(listed(self.0.tokens(), self.1.tokens()), self.2.tokens()), start));
            lemma_render_concat(listed(listed(self.0.tokens(), self.1.tokens()), self.2.tokens()) + sql(", "@), self.3.tokens(), start);
        }
        self.0.to_sql(out)?;
        out.push_sql(", ");
        self.1.to_sql(out)?;
        out.push_sql(", ");
        self.2.to_sql(out)?;
        out.push_sql(", ");
        self.3.to_sql(out)
    }
}

impl<A: SelectableExpression<QS>, B: SelectableExpression<QS>, C: SelectableExpression<QS>, D: SelectableExpression<QS>, QS> SelectableExpression<QS> for (A, B, C, D) {
}

impl<A: NonAggregate, B: NonAggregate, C: NonAggregate, D: NonAggregate> NonAggregate for (A, B, C, D) {
}

} // verus!
