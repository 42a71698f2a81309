pub mod bound;
pub mod tuples;
pub mod count;
pub mod grouped;
pub mod max;
pub mod ops;
pub mod ordering;
pub mod predicates;
pub mod sql_literal;

use vstd::prelude::*;
use crate::query_builder::{
    BuildQueryResult, QueryBuilder, Token, lemma_render_concat, lemma_render_one, renders,
};
use crate::types::{Bool, NativeSqlType, VarChar};
use self::grouped::Grouped;
use self::ordering::Desc;
use self::predicates::{
    And, Between, Gt, GtEq, Like, Lt, LtEq, NotBetween, NotEq, NotLike, Or,
};

verus! {

/// A typed node of a statement: it has one SQL type and renders itself.
pub trait Expression: Sized {
    type SqlType: NativeSqlType;

    /// The steps that rendering this expression takes, in order.
    spec fn tokens(&self) -> Seq<Token>;

    fn to_sql<QB: QueryBuilder>(&self, out: &mut QB) -> (r: BuildQueryResult)
        ensures
            renders(self.tokens(), old(out).output(), final(out).output(), r),
    ;

    /// Renders the expression as a value of an INSERT statement.
    fn to_insert_sql<QB: QueryBuilder>(&self, out: &mut QB) -> (r: BuildQueryResult)
        ensures
            renders(self.tokens(), old(out).output(), final(out).output(), r),
    {
        self.to_sql(out)
    }
}

/// What can stand where an expression of the SQL type `T` is expected: such
/// an expression itself, or a value that is bound as one.
pub trait AsExpression<T: NativeSqlType> {
    type Expression: Expression<SqlType = T>;

    spec fn spec_as_expression(self) -> Self::Expression;

    fn as_expression(self) -> (r: Self::Expression)
        ensures
            r == self.spec_as_expression(),
    ;
}

impl<T: Expression> AsExpression<T::SqlType> for T {
    type Expression = Self;

    open spec fn spec_as_expression(self) -> Self {
        self
    }

    fn as_expression(self) -> (r: Self) {
        self
    }
}

/// An expression that may be selected from, or filtered against, the source
/// `QS`, with the SQL type `Type` there.
pub trait SelectableExpression<QS, Type: NativeSqlType = <Self as Expression>::SqlType>: Expression {
}

/// An expression that holds no aggregate function.
pub trait NonAggregate: Expression {
}

/// The single token of a piece of literal text.
pub open spec fn sql(text: Seq<char>) -> Seq<Token> {
    seq![Token::Sql(text)]
}

/// The tokens of `left operator right`.
pub open spec fn infix(left: Seq<Token>, operator: Seq<char>, right: Seq<Token>) -> Seq<Token> {
    left + sql(operator) + right
}

/// The tokens of `open inner close`.
pub open spec fn wrapped(open: Seq<char>, inner: Seq<Token>, close: Seq<char>) -> Seq<Token> {
    sql(open) + inner + sql(close)
}

/// Renders `left`, the operator's text and `right`, and stops at the first failure.
pub fn infix_to_sql<L: Expression, R: Expression, QB: QueryBuilder>(
    left: &L,
    operator: &str,
    right: &R,
    out: &mut QB,
) -> (r: BuildQueryResult)
    ensures
        renders(
            infix(left.tokens(), operator@, right.tokens()),
            old(out).output(),
            final(out).output(),
            r,
        ),
{
    let ghost start = out.output();
    proof {
        lemma_render_concat(left.tokens(), sql(operator@), start);
        lemma_render_concat(left.tokens() + sql(operator@), right.tokens(), start);
        lemma_render_one(Token::Sql(operator@), render_of(left.tokens(), start));
    }
    left.to_sql(out)?;
    out.push_sql(operator);
    right.to_sql(out)
}

/// Renders the opening text, `inner` and the closing text, and stops at the first failure.
pub fn wrapped_to_sql<E: Expression, QB: QueryBuilder>(
    open: &str,
    inner: &E,
    close: &str,
    out: &mut QB,
) -> (r: BuildQueryResult)
    ensures
        renders(
            wrapped(open@, inner.tokens(), close@),
            old(out).output(),
            final(out).output(),
            r,
        ),
{
    let ghost start = out.output();
    proof {
        lemma_render_one(Token::Sql(open@), start);
        lemma_render_concat(sql(open@), inner.tokens(), start);
        lemma_render_concat(sql(open@) + inner.tokens(), sql(close@), start);
        lemma_render_one(Token::Sql(close@), render_of(sql(open@) + inner.tokens(), start));
    }
    out.push_sql(open);
    inner.to_sql(out)?;
    out.push_sql(close);
    Ok(())
}

/// The output that rendering `tokens` onto `start` ends with.
pub open spec fn render_of(tokens: Seq<Token>, start: crate::query_builder::Output) -> crate::query_builder::Output {
    crate::query_builder::render(tokens, start).0
}

/// The operators by which expressions are composed. An operand that is not an
/// expression is bound as a value of the SQL type that the operator asks for.
pub trait ExpressionMethods: Expression {
    /// `self = other`.
    fn eq<U: AsExpression<Self::SqlType>>(self, other: U) -> (r: crate::expression::predicates::Eq<Self, U::Expression>)
        ensures
            r.left == self,
            r.right == other.spec_as_expression(),
    {
        crate::expression::predicates::Eq::new(self, other.as_expression())
    }

    /// `self != other`.
    fn ne<U: AsExpression<Self::SqlType>>(self, other: U) -> (r: NotEq<Self, U::Expression>)
        ensures
            r.left == self,
            r.right == other.spec_as_expression(),
    {
        NotEq::new(self, other.as_expression())
    }

    /// `self > other`.
    fn gt<U: AsExpression<Self::SqlType>>(self, other: U) -> (r: Gt<Self, U::Expression>)
        ensures
            r.left == self,
            r.right == other.spec_as_expression(),
    {
        Gt::new(self, other.as_expression())
    }

    /// `self >= other`.
    fn ge<U: AsExpression<Self::SqlType>>(self, other: U) -> (r: GtEq<Self, U::Expression>)
        ensures
            r.left == self,
            r.right == other.spec_as_expression(),
    {
        GtEq::new(self, other.as_expression())
    }

    /// `self < other`.
    fn lt<U: AsExpression<Self::SqlType>>(self, other: U) -> (r: Lt<Self, U::Expression>)
        ensures
            r.left == self,
            r.right == other.spec_as_expression(),
    {
        Lt::new(self, other.as_expression())
    }

    /// `self <= other`.
    fn le<U: AsExpression<Self::SqlType>>(self, other: U) -> (r: LtEq<Self, U::Expression>)
        ensures
            r.left == self,
            r.right == other.spec_as_expression(),
    {
        LtEq::new(self, other.as_expression())
    }

    /// `self BETWEEN lower AND upper`, the bounds being the ends of `other`.
    fn between<U: AsExpression<Self::SqlType>>(self, other: std::ops::Range<U>) -> (r: Between<
        Self,
        U::Expression,
        U::Expression,
    >)
        ensures
            r.target == self,
            r.lower == other.start.spec_as_expression(),
            r.upper == other.end.spec_as_expression(),
    {
        let std::ops::Range { start, end } = other;
        Between::new(self, start.as_expression(), end.as_expression())
    }

    /// `self NOT BETWEEN lower AND upper`, the bounds being the ends of `other`.
    fn not_between<U: AsExpression<Self::SqlType>>(self, other: std::ops::Range<U>) -> (r: NotBetween<
        Self,
        U::Expression,
        U::Expression,
    >)
        ensures
            r.target == self,
            r.lower == other.start.spec_as_expression(),
            r.upper == other.end.spec_as_expression(),
    {
        let std::ops::Range { start, end } = other;
        NotBetween::new(self, start.as_expression(), end.as_expression())
    }

    /// `self AND other`.
    fn and<U: AsExpression<Bool>>(self, other: U) -> (r: And<Self, U::Expression>)
        ensures
            r.left == self,
            r.right == other.spec_as_expression(),
    {
        And::new(self, other.as_expression())
    }

    /// `(self OR other)`.
    fn or<U: AsExpression<Bool>>(self, other: U) -> (r: Grouped<Or<Self, U::Expression>>)
        ensures
            r.0.left == self,
            r.0.right == other.spec_as_expression(),
    {
        Grouped(Or::new(self, other.as_expression()))
    }

    /// `self LIKE other`.
    fn like<U: AsExpression<VarChar>>(self, other: U) -> (r: Like<Self, U::Expression>)
        ensures
            r.left == self,
            r.right == other.spec_as_expression(),
    {
        Like::new(self, other.as_expression())
    }

    /// `self NOT LIKE other`.
    fn not_like<U: AsExpression<VarChar>>(self, other: U) -> (r: NotLike<Self, U::Expression>)
        ensures
            r.left == self,
            r.right == other.spec_as_expression(),
    {
        NotLike::new(self, other.as_expression())
    }

    /// `self DESC`.
    fn desc(self) -> (r: Desc<Self>)
        ensures
            r.expr == self,
    {
        Desc::new(self)
    }
}

impl<E: Expression> ExpressionMethods for E {
}

} // verus!
