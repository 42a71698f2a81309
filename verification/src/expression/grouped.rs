use vstd::prelude::*;
use crate::query_builder::{BuildQueryResult, QueryBuilder, Token};
use super::{Expression, NonAggregate, SelectableExpression, wrapped, wrapped_to_sql};

verus! {

/// An expression between parentheses.
#[derive(Debug, Clone, Copy)]
pub struct Grouped<T>(pub T);

impl<T: Expression> Expression for Grouped<T> {
    type SqlType = T::SqlType;

    open spec fn tokens(&self) -> Seq<Token> {
        wrapped("("@, self.0.tokens(), ")"@)
    }

    fn to_sql<QB: QueryBuilder>(&self, out: &mut QB) -> (r: BuildQueryResult) {
        wrapped_to_sql("(", &self.0, ")", out)
    }
}

impl<T: SelectableExpression<QS>, QS> SelectableExpression<QS> for Grouped<T> where Grouped<T>: Expression {
}

impl<T: NonAggregate> NonAggregate for Grouped<T> where Grouped<T>: Expression {
}

} // verus!
