use vstd::prelude::*;
use std::marker::PhantomData;
use vstd::string::StringExecFns;
use crate::expression::{Expression, sql};
use crate::query_builder::{
    BuildQueryResult, Output, QueryBuilder, Token, bound_values, lemma_bound_values_concat,
    lemma_render_binds, lemma_render_concat, lemma_render_one, render,
};
use crate::query_source::{Column, Table};
use crate::types::NativeSqlType;

verus! {

/// What can be inserted into the table `T`: one record, or a list of records.
pub trait Insertable<T: Table> {
    type Columns: InsertableColumns<T>;

    type Values: Expression<SqlType = <Self::Columns as InsertableColumns<T>>::SqlType>;

    /// The columns that the values go to; the same for every record.
    fn columns() -> Self::Columns;

    /// The values, as an expression that renders them.
    fn values(self) -> Self::Values;
}

/// A list of columns of the table `T` that values can be inserted into.
pub trait InsertableColumns<T: Table> {
    type SqlType: NativeSqlType;

    spec fn spec_names() -> Seq<char>;

    /// The names of the columns, separated by `, `.
    fn names(&self) -> (r: String)
        ensures
            r@ == Self::spec_names(),
    ;
}

impl<C: Column<Table = T>, T: Table> InsertableColumns<T> for C {
    type SqlType = <Self as Expression>::SqlType;

    open spec fn spec_names() -> Seq<char> {
        <C as Column>::spec_name()
    }

    fn names(&self) -> (r: String) {
        String::from_str(<C as Column>::name())
    }
}

impl<T: Table, A: InsertableColumns<T>, B: InsertableColumns<T>> InsertableColumns<T> for (A, B) {
    type SqlType = (A::SqlType, B::SqlType);

    open spec fn spec_names() -> Seq<char> {
        A::spec_names() + ", "@ + B::spec_names()
    }

    fn names(&self) -> (r: String) {
        let mut r = self.0.names();
        r.append(", ");
        r.append(self.1.names().as_str());
        r
    }
}

impl<T, A, B, C> InsertableColumns<T> for (A, B, C) where
    T: Table,
    A: InsertableColumns<T>,
    B: InsertableColumns<T>,
    C: InsertableColumns<T>,
{
    type SqlType = (A::SqlType, B::SqlType, C::SqlType);

    open spec fn spec_names() -> Seq<char> {
        A::spec_names() + ", "@ + B::spec_names() + ", "@ + C::spec_names()
    }

    fn names(&self) -> (r: String) {
        let mut r = self.0.names();
        r.append(", ");
        r.append(self.1.names().as_str());
        r.append(", ");
        r.append(self.2.names().as_str());
        r
    }
}

/// The tokens of the first `n` of the groups, separated by `, `.
pub open spec fn joined(groups: Seq<Seq<Token>>, n: nat) -> Seq<Token>
    decreases n,
{
    if n == 0 {
        Seq::empty()
    } else if n == 1 {
        groups[0]
    } else {
        joined(groups, (n - 1) as nat) + sql(", "@) + groups[n - 1]
    }
}

/// The tokens of the groups from the one with index `n` on, each with the
/// separator before it unless it is the first of all.
pub open spec fn joined_from(groups: Seq<Seq<Token>>, n: nat) -> Seq<Token>
    decreases groups.len() - n,
{
    if n >= groups.len() {
        Seq::empty()
    } else if n == 0 {
        groups[0] + joined_from(groups, 1)
    } else {
        sql(", "@) + groups[n as int] + joined_from(groups, n + 1)
    }
}

/// The first `n` groups followed by the others are all the groups.
pub proof fn lemma_joined_split(groups: Seq<Seq<Token>>, n: nat)
    requires
        n <= groups.len(),
    ensures
        joined(groups, n) + joined_from(groups, n) == joined(groups, groups.len()),
    decreases groups.len() - n,
{
    if n < groups.len() {
        lemma_joined_split(groups, n + 1);
        assert(joined(groups, n) + joined_from(groups, n) =~= joined(groups, n + 1) + joined_from(
            groups,
            n + 1,
        ));
    } else {
        assert(joined(groups, n) + joined_from(groups, n) =~= joined(groups, n));
    }
}

/// The tokens that come before the group with index `i`: the groups before
/// it, and the separator if there are any.
pub open spec fn joined_before(groups: Seq<Seq<Token>>, i: nat) -> Seq<Token> {
    if i == 0 {
        Seq::empty()
    } else {
        joined(groups, i) + sql(", "@)
    }
}

/// The index of the first placeholder of the group with index `i`, when the
/// groups are rendered onto `start`: one more than the number of values that
/// `start` holds and the groups before it bind.
pub open spec fn first_placeholder(groups: Seq<Seq<Token>>, i: nat, start: Output) -> nat {
    start.binds.len() + bound_values(joined(groups, i)).len() + 1
}

/// The separator binds nothing: the groups up to one bind what the groups
/// before it bind and then what it binds.
pub proof fn lemma_joined_binds(groups: Seq<Seq<Token>>, i: nat)
    requires
        i < groups.len(),
    ensures
        bound_values(joined_before(groups, i)) == bound_values(joined(groups, i)),
        bound_values(joined(groups, i + 1)) == bound_values(joined(groups, i)) + bound_values(
            groups[i as int],
        ),
        joined(groups, i + 1) == joined_before(groups, i) + groups[i as int],
{
    let separator = sql(", "@);
    assert(separator.drop_last() =~= Seq::<Token>::empty());
    assert(separator.last() == Token::Sql(", "@));
    assert(bound_values(Seq::<Token>::empty()) =~= Seq::empty());
    assert(bound_values(separator) =~= Seq::empty());
    if i == 0 {
        assert(joined(groups, 0) =~= Seq::<Token>::empty());
        assert(joined(groups, 1) =~= joined_before(groups, 0) + groups[0]);
        assert(bound_values(joined(groups, 0)) + bound_values(groups[0]) =~= bound_values(groups[0]));
    } else {
        lemma_bound_values_concat(joined(groups, i), separator);
        assert(bound_values(joined(groups, i)) + bound_values(separator) =~= bound_values(
            joined(groups, i),
        ));
        lemma_bound_values_concat(joined_before(groups, i), groups[i as int]);
    }
}

/// In the values of an INSERT statement, the records use disjoint and
/// contiguous ranges of placeholders, in the order of the records, and the
/// bound values lie in the same order. Where the groups render completely
/// onto `start`, the group with index `i` is rendered onto an output that
/// holds the values of `start` and of the groups before it and nothing
/// else; so its placeholders begin at `first_placeholder(groups, i, start)`,
/// it has as many as it binds values, the next group's begin right after
/// them, and its values stand in the final list at the positions of its
/// placeholders.
pub proof fn lemma_insert_groups(groups: Seq<Seq<Token>>, i: nat, start: Output)
    requires
        i < groups.len(),
        render(joined(groups, groups.len()), start).1,
    ensures
        render(joined_before(groups, i), start).1,
        render(joined_before(groups, i), start).0.binds.len() + 1 == first_placeholder(groups, i, start),
        render(joined(groups, i + 1), start) == render(
            groups[i as int],
            render(joined_before(groups, i), start).0,
        ),
        first_placeholder(groups, i + 1, start) == first_placeholder(groups, i, start) + bound_values(
            groups[i as int],
        ).len(),
        render(joined(groups, groups.len()), start).0.binds.len() + 1 == first_placeholder(
            groups,
            groups.len(),
            start,
        ),
        forall|k: int|
            0 <= k < bound_values(groups[i as int]).len() ==> #[trigger] render(
                joined(groups, groups.len()),
                start,
            ).0.binds[first_placeholder(groups, i, start) - 1 + k] == bound_values(groups[i as int])[k],
{
    let all = joined(groups, groups.len());
    let before = joined_before(groups, i);
    let upto = joined(groups, i + 1);
    lemma_joined_binds(groups, i);
    lemma_joined_split(groups, i + 1);
    lemma_render_concat(upto, joined_from(groups, i + 1), start);
    lemma_render_concat(before, groups[i as int], start);
    lemma_render_binds(before, start);
    lemma_render_binds(upto, start);
    lemma_render_binds(all, start);
    lemma_bound_values_concat(upto, joined_from(groups, i + 1));
    assert(all == upto + joined_from(groups, i + 1));
    let mine = bound_values(groups[i as int]);
    assert forall|k: int| 0 <= k < mine.len() implies #[trigger] render(all, start).0.binds[first_placeholder(
        groups,
        i,
        start,
    ) - 1 + k] == mine[k] by {
        assert(render(all, start).0.binds == start.binds + (bound_values(joined(groups, i)) + mine
            + bound_values(joined_from(groups, i + 1))));
    }
}

/// The records of one INSERT statement into the table `T`, each as the
/// expression that renders its values.
pub struct InsertValues<T, V> {
    pub values: Vec<V>,
    pub _marker: PhantomData<T>,
}

/// The tokens of each record's values, in the order of the records.
pub open spec fn record_groups<V: Expression>(records: Seq<V>) -> Seq<Seq<Token>> {
    Seq::new(records.len(), |i: int| records[i].tokens())
}

impl<T, V> InsertValues<T, V> {
    pub fn new(values: Vec<V>) -> (r: Self)
        ensures
            r.values == values,
    {
        InsertValues { values, _marker: PhantomData }
    }
}

impl<T: Table, V: Expression> Expression for InsertValues<T, V> {
    type SqlType = V::SqlType;

    open spec fn tokens(&self) -> Seq<Token> {
        joined(record_groups(self.values@), self.values@.len())
    }

    fn to_sql<QB: QueryBuilder>(&self, out: &mut QB) -> (r: BuildQueryResult) {
        self.to_insert_sql(out)
    }

    fn to_insert_sql<QB: QueryBuilder>(&self, out: &mut QB) -> (r: BuildQueryResult) {
        let ghost start = out.output();
        let ghost groups = record_groups(self.values@);
        let mut i: usize = 0;
        while i < self.values.len()
            invariant
                i <= self.values@.len(),
                start == old(out).output(),
                groups == record_groups(self.values@),
                render(joined(groups, i as nat), start) == (out.output(), true),
            decreases self.values@.len() - i,
        {
            let ghost done = joined(groups, i as nat);
            let ghost middle = out.output();
            if i != 0 {
                proof {
                    lemma_render_concat(done, sql(", "@), start);
                    lemma_render_one(Token::Sql(", "@), middle);
                }
                out.push_sql(", ");
            }
            let ghost separated = if i == 0 { done } else { done + sql(", "@) };
            proof {
                assert(joined(groups, (i + 1) as nat) =~= separated + groups[i as int]);
                lemma_render_concat(separated, groups[i as int], start);
                lemma_joined_split(groups, (i + 1) as nat);
                lemma_render_concat(
                    joined(groups, (i + 1) as nat),
                    joined_from(groups, (i + 1) as nat),
                    start,
                );
            }
            self.values[i].to_insert_sql(out)?;
            i += 1;
        }
        Ok(())
    }
}

/// Whether `values` are what the records give for their values, record by
/// record and in the order of the records.
pub open spec fn records_values<'a, T: Table, U: 'a>(
    records: Seq<U>,
    values: Seq<<&'a U as Insertable<T>>::Values>,
) -> bool where &'a U: Insertable<T> {
    &&& values.len() == records.len()
    &&& forall|k: int|
        0 <= k < records.len() ==> call_ensures(
            <&'a U as Insertable<T>>::values,
            (&records[k],),
            #[trigger] values[k],
        )
}

impl<'a, T, U> Insertable<T> for &'a [U] where T: Table, &'a U: Insertable<T> {
    type Columns = <&'a U as Insertable<T>>::Columns;

    type Values = InsertValues<T, <&'a U as Insertable<T>>::Values>;

    fn columns() -> (r: Self::Columns)
        ensures
            call_ensures(<&'a U as Insertable<T>>::columns, (), r),
    {
        <&'a U as Insertable<T>>::columns()
    }

    fn values(self) -> (r: Self::Values)
        ensures
            records_values::<T, U>(self@, r.values@),
    {
        let mut values: Vec<<&'a U as Insertable<T>>::Values> = Vec::new();
        let mut i: usize = 0;
        while i < self.len()
            invariant
                i <= self@.len(),
                values@.len() == i,
                forall|k: int|
                    0 <= k < i ==> call_ensures(
                        <&'a U as Insertable<T>>::values,
                        (&self@[k],),
                        #[trigger] values@[k],
                    ),
            decreases self@.len() - i,
        {
            let record: &'a U = &self[i];
            values.push(record.values());
            i += 1;
        }
        InsertValues::new(values)
    }
}

impl<'a, T, U> Insertable<T> for &'a Vec<U> where T: Table, &'a U: Insertable<T> {
    type Columns = <&'a U as Insertable<T>>::Columns;

    type Values = InsertValues<T, <&'a U as Insertable<T>>::Values>;

    fn columns() -> (r: Self::Columns)
        ensures
            call_ensures(<&'a U as Insertable<T>>::columns, (), r),
    {
        <&'a U as Insertable<T>>::columns()
    }

    fn values(self) -> (r: Self::Values)
        ensures
            records_values::<T, U>(self@, r.values@),
    {
        <&'a [U] as Insertable<T>>::values(self.as_slice())
    }
}

} // verus!
