use vstd::prelude::*;
use crate::expression::Expression;
use crate::expression::count::{CountStar, count_star};
use crate::query_builder::AsQuery;
use crate::query_source::Table;
use crate::types::{BigInt, NativeSqlType};

verus! {

/// Replacing the predicate that a query keeps rows by.
pub trait FilterDsl<Predicate> {
    type Output;

    spec fn spec_filter(self, predicate: Predicate) -> Self::Output;

    /// The same query with `predicate` as its WHERE clause, in place of the
    /// one it had.
    fn filter(self, predicate: Predicate) -> (r: Self::Output)
        ensures
            r == self.spec_filter(predicate),
    ;
}

/// Replacing what a query selects.
pub trait SelectDsl<Selection: Expression, Type: NativeSqlType = <Selection as Expression>::SqlType> {
    type Output;

    spec fn spec_select(self, selection: Selection) -> Self::Output;

    /// The same query with `selection` as what it selects, and that
    /// expression's SQL type as the type of its rows.
    fn select(self, selection: Selection) -> (r: Self::Output)
        ensures
            r == self.spec_select(selection),
    ;
}

/// Counting the rows of a query.
pub trait CountDsl: SelectDsl<CountStar, BigInt> + Sized {
    /// The same query, selecting the number of its rows.
    fn count(self) -> (r: <Self as SelectDsl<CountStar, BigInt>>::Output)
        ensures
            r == self.spec_select(CountStar),
    {
        self.select(count_star())
    }
}

impl<S: SelectDsl<CountStar, BigInt>> CountDsl for S {
}

impl<T, Predicate> FilterDsl<Predicate> for T where T: Table, T::Query: FilterDsl<Predicate> {
    type Output = <T::Query as FilterDsl<Predicate>>::Output;

    open spec fn spec_filter(self, predicate: Predicate) -> Self::Output {
        self.spec_as_query().spec_filter(predicate)
    }

    fn filter(self, predicate: Predicate) -> (r: Self::Output) {
        self.as_query().filter(predicate)
    }
}

impl<T, Selection, Type> SelectDsl<Selection, Type> for T where
    T: Table,
    Selection: Expression,
    Type: NativeSqlType,
    T::Query: SelectDsl<Selection, Type>,
{
    type Output = <T::Query as SelectDsl<Selection, Type>>::Output;

    open spec fn spec_select(self, selection: Selection) -> Self::Output {
        self.spec_as_query().spec_select(selection)
    }

    fn select(self, selection: Selection) -> (r: Self::Output) {
        self.as_query().select(selection)
    }
}

} // verus!
