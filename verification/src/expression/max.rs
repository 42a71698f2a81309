use vstd::prelude::*;
use crate::query_builder::{BuildQueryResult, QueryBuilder, Token};
use crate::types::{NativeSqlType, SqlOrd};
use super::{Expression, SelectableExpression, wrapped, wrapped_to_sql};

verus! {

/// The greatest value of an expression whose SQL type is ordered.
pub fn max<ST, T>(t: T) -> (r: Max<T>) where ST: NativeSqlType + SqlOrd, T: Expression<SqlType = ST>
    ensures
        r.target == t,
{
    Max { target: t }
}

#[derive(Debug, Clone, Copy)]
pub struct Max<T: Expression> {
    pub target: T,
}

impl<T: Expression> Expression for Max<T> {
    type SqlType = T::SqlType;

    open spec fn tokens(&self) -> Seq<Token> {
        wrapped("MAX("@, self.target.tokens(), ")"@)
    }

    fn to_sql<QB: QueryBuilder>(&self, out: &mut QB) -> (r: BuildQueryResult) {
        wrapped_to_sql("MAX(", &self.target, ")", out)
    }
}

impl<T: Expression, QS> SelectableExpression<QS> for Max<T> {
}

} // verus!
