use vstd::prelude::*;
use std::marker::PhantomData;
use crate::query_builder::{BuildQueryResult, QueryBuilder, Token, lemma_render_one};
use crate::types::{
    BigInt, BigSerial, Binary, Bool, Integer, IsNull, NativeSqlType, Nullable, Serial, SmallInt,
    SmallSerial, Text, ToSql, VarChar,
};
use super::{AsExpression, Expression, NonAggregate, SelectableExpression};

verus! {

/// A value that is sent beside the statement, as a value of the SQL type `T`,
/// and stands in the text as a placeholder.
#[derive(Debug)]
pub struct Bound<T, U> {
    pub item: U,
    pub _marker: PhantomData<T>,
}

impl<T: NativeSqlType, U> Bound<T, U> {
    pub fn new(item: U) -> (r: Self)
        ensures
            r == bound::<T, U>(item),
    {
        Bound { item, _marker: PhantomData }
    }
}

/// The bound value that holds `item`.
pub open spec fn bound<T, U>(item: U) -> Bound<T, U> {
    Bound { item, _marker: PhantomData }
}

impl<T: NativeSqlType, U: ToSql<T>> Expression for Bound<T, U> {
    type SqlType = T;

    open spec fn tokens(&self) -> Seq<Token> {
        seq![Token::Bind(T::spec_oid(), self.item.encoded())]
    }

    fn to_sql<QB: QueryBuilder>(&self, out: &mut QB) -> (r: BuildQueryResult) {
        proof {
            lemma_render_one(Token::Bind(T::spec_oid(), self.item.encoded()), out.output());
        }
        let mut bytes: Vec<u8> = Vec::new();
        match self.item.to_sql(&mut bytes) {
            IsNull::Yes => out.push_bound_value::<T>(None),
            IsNull::No => out.push_bound_value::<T>(Some(bytes)),
        }
        Ok(())
    }
}

impl<T: NativeSqlType, U: ToSql<T>, QS> SelectableExpression<QS> for Bound<T, U> {
}

impl<T: NativeSqlType, U: ToSql<T>> NonAggregate for Bound<T, U> {
}

impl AsExpression<SmallInt> for i16 {
    type Expression = Bound<SmallInt, i16>;

    open spec fn spec_as_expression(self) -> Self::Expression {
        bound::<SmallInt, i16>(self)
    }

    fn as_expression(self) -> (r: Self::Expression) {
        Bound::new(self)
    }
}

impl<'a> AsExpression<SmallInt> for &'a i16 {
    type Expression = Bound<SmallInt, &'a i16>;

    open spec fn spec_as_expression(self) -> Self::Expression {
        bound::<SmallInt, &'a i16>(self)
    }

    fn as_expression(self) -> (r: Self::Expression) {
        Bound::new(self)
    }
}

impl AsExpression<Nullable<SmallInt>> for Option<i16> {
    type Expression = Bound<Nullable<SmallInt>, Option<i16>>;

    open spec fn spec_as_expression(self) -> Self::Expression {
        bound::<Nullable<SmallInt>, Option<i16>>(self)
    }

    fn as_expression(self) -> (r: Self::Expression) {
        Bound::new(self)
    }
}

impl<'a> AsExpression<Nullable<SmallInt>> for &'a Option<i16> {
    type Expression = Bound<Nullable<SmallInt>, &'a Option<i16>>;

    open spec fn spec_as_expression(self) -> Self::Expression {
        bound::<Nullable<SmallInt>, &'a Option<i16>>(self)
    }

    fn as_expression(self) -> (r: Self::Expression) {
        Bound::new(self)
    }
}

impl AsExpression<SmallSerial> for i16 {
    type Expression = Bound<SmallSerial, i16>;

    open spec fn spec_as_expression(self) -> Self::Expression {
        bound::<SmallSerial, i16>(self)
    }

    fn as_expression(self) -> (r: Self::Expression) {
        Bound::new(self)
    }
}

impl<'a> AsExpression<SmallSerial> for &'a i16 {
    type Expression = Bound<SmallSerial, &'a i16>;

    open spec fn spec_as_expression(self) -> Self::Expression {
        bound::<SmallSerial, &'a i16>(self)
    }

    fn as_expression(self) -> (r: Self::Expression) {
        Bound::new(self)
    }
}

impl AsExpression<Nullable<SmallSerial>> for Option<i16> {
    type Expression = Bound<Nullable<SmallSerial>, Option<i16>>;

    open spec fn spec_as_expression(self) -> Self::Expression {
        bound::<Nullable<SmallSerial>, Option<i16>>(self)
    }

    fn as_expression(self) -> (r: Self::Expression) {
        Bound::new(self)
    }
}

impl<'a> AsExpression<Nullable<SmallSerial>> for &'a Option<i16> {
    type Expression = Bound<Nullable<SmallSerial>, &'a Option<i16>>;

    open spec fn spec_as_expression(self) -> Self::Expression {
        bound::<Nullable<SmallSerial>, &'a Option<i16>>(self)
    }

    fn as_expression(self) -> (r: Self::Expression) {
        Bound::new(self)
    }
}

impl AsExpression<Integer> for i32 {
    type Expression = Bound<Integer, i32>;

    open spec fn spec_as_expression(self) -> Self::Expression {
        bound::<Integer, i32>(self)
    }

    fn as_expression(self) -> (r: Self::Expression) {
        Bound::new(self)
    }
}

impl<'a> AsExpression<Integer> for &'a i32 {
    type Expression = Bound<Integer, &'a i32>;

    open spec fn spec_as_expression(self) -> Self::Expression {
        bound::<Integer, &'a i32>(self)
    }

    fn as_expression(self) -> (r: Self::Expression) {
        Bound::new(self)
    }
}

impl AsExpression<Nullable<Integer>> for Option<i32> {
    type Expression = Bound<Nullable<Integer>, Option<i32>>;

    open spec fn spec_as_expression(self) -> Self::Expression {
        bound::<Nullable<Integer>, Option<i32>>(self)
    }

    fn as_expression(self) -> (r: Self::Expression) {
        Bound::new(self)
    }
}

impl<'a> AsExpression<Nullable<Integer>> for &'a Option<i32> {
    type Expression = Bound<Nullable<Integer>, &'a Option<i32>>;

    open spec fn spec_as_expression(self) -> Self::Expression {
        bound::<Nullable<Integer>, &'a Option<i32>>(self)
    }

    fn as_expression(self) -> (r: Self::Expression) {
        Bound::new(self)
    }
}

impl AsExpression<Serial> for i32 {
    type Expression = Bound<Serial, i32>;

    open spec fn spec_as_expression(self) -> Self::Expression {
        bound::<Serial, i32>(self)
    }

    fn as_expression(self) -> (r: Self::Expression) {
        Bound::new(self)
    }
}

impl<'a> AsExpression<Serial> for &'a i32 {
    type Expression = Bound<Serial, &'a i32>;

    open spec fn spec_as_expression(self) -> Self::Expression {
        bound::<Serial, &'a i32>(self)
    }

    fn as_expression(self) -> (r: Self::Expression) {
        Bound::new(self)
    }
}

impl AsExpression<Nullable<Serial>> for Option<i32> {
    type Expression = Bound<Nullable<Serial>, Option<i32>>;

    open spec fn spec_as_expression(self) -> Self::Expression {
        bound::<Nullable<Serial>, Option<i32>>(self)
    }

    fn as_expression(self) -> (r: Self::Expression) {
        Bound::new(self)
    }
}

impl<'a> AsExpression<Nullable<Serial>> for &'a Option<i32> {
    type Expression = Bound<Nullable<Serial>, &'a Option<i32>>;

    open spec fn spec_as_expression(self) -> Self::Expression {
        bound::<Nullable<Serial>, &'a Option<i32>>(self)
    }

    fn as_expression(self) -> (r: Self::Expression) {
        Bound::new(self)
    }
}

impl AsExpression<BigInt> for i64 {
    type Expression = Bound<BigInt, i64>;

    open spec fn spec_as_expression(self) -> Self::Expression {
        bound::<BigInt, i64>(self)
    }

    fn as_expression(self) -> (r: Self::Expression) {
        Bound::new(self)
    }
}

impl<'a> AsExpression<BigInt> for &'a i64 {
    type Expression = Bound<BigInt, &'a i64>;

    open spec fn spec_as_expression(self) -> Self::Expression {
        bound::<BigInt, &'a i64>(self)
    }

    fn as_expression(self) -> (r: Self::Expression) {
        Bound::new(self)
    }
}

impl AsExpression<Nullable<BigInt>> for Option<i64> {
    type Expression = Bound<Nullable<BigInt>, Option<i64>>;

    open spec fn spec_as_expression(self) -> Self::Expression {
        bound::<Nullable<BigInt>, Option<i64>>(self)
    }

    fn as_expression(self) -> (r: Self::Expression) {
        Bound::new(self)
    }
}

impl<'a> AsExpression<Nullable<BigInt>> for &'a Option<i64> {
    type Expression = Bound<Nullable<BigInt>, &'a Option<i64>>;

    open spec fn spec_as_expression(self) -> Self::Expression {
        bound::<Nullable<BigInt>, &'a Option<i64>>(self)
    }

    fn as_expression(self) -> (r: Self::Expression) {
        Bound::new(self)
    }
}

impl AsExpression<BigSerial> for i64 {
    type Expression = Bound<BigSerial, i64>;

    open spec fn spec_as_expression(self) -> Self::Expression {
        bound::<BigSerial, i64>(self)
    }

    fn as_expression(self) -> (r: Self::Expression) {
        Bound::new(self)
    }
}

impl<'a> AsExpression<BigSerial> for &'a i64 {
    type Expression = Bound<BigSerial, &'a i64>;

    open spec fn spec_as_expression(self) -> Self::Expression {
        bound::<BigSerial, &'a i64>(self)
    }

    fn as_expression(self) -> (r: Self::Expression) {
        Bound::new(self)
    }
}

impl AsExpression<Nullable<BigSerial>> for Option<i64> {
    type Expression = Bound<Nullable<BigSerial>, Option<i64>>;

    open spec fn spec_as_expression(self) -> Self::Expression {
        bound::<Nullable<BigSerial>, Option<i64>>(self)
    }

    fn as_expression(self) -> (r: Self::Expression) {
        Bound::new(self)
    }
}

impl<'a> AsExpression<Nullable<BigSerial>> for &'a Option<i64> {
    type Expression = Bound<Nullable<BigSerial>, &'a Option<i64>>;

    open spec fn spec_as_expression(self) -> Self::Expression {
        bound::<Nullable<BigSerial>, &'a Option<i64>>(self)
    }

    fn as_expression(self) -> (r: Self::Expression) {
        Bound::new(self)
    }
}

impl AsExpression<Bool> for bool {
    type Expression = Bound<Bool, bool>;

    open spec fn spec_as_expression(self) -> Self::Expression {
        bound::<Bool, bool>(self)
    }

    fn as_expression(self) -> (r: Self::Expression) {
        Bound::new(self)
    }
}

impl<'a> AsExpression<Bool> for &'a bool {
    type Expression = Bound<Bool, &'a bool>;

    open spec fn spec_as_expression(self) -> Self::Expression {
        bound::<Bool, &'a bool>(self)
    }

    fn as_expression(self) -> (r: Self::Expression) {
        Bound::new(self)
    }
}

impl AsExpression<Nullable<Bool>> for Option<bool> {
    type Expression = Bound<Nullable<Bool>, Option<bool>>;

    open spec fn spec_as_expression(self) -> Self::Expression {
        bound::<Nullable<Bool>, Option<bool>>(self)
    }

    fn as_expression(self) -> (r: Self::Expression) {
        Bound::new(self)
    }
}

impl<'a> AsExpression<Nullable<Bool>> for &'a Option<bool> {
    type Expression = Bound<Nullable<Bool>, &'a Option<bool>>;

    open spec fn spec_as_expression(self) -> Self::Expression {
        bound::<Nullable<Bool>, &'a Option<bool>>(self)
    }

    fn as_expression(self) -> (r: Self::Expression) {
        Bound::new(self)
    }
}

impl AsExpression<VarChar> for String {
    type Expression = Bound<VarChar, String>;

    open spec fn spec_as_expression(self) -> Self::Expression {
        bound::<VarChar, String>(self)
    }

    fn as_expression(self) -> (r: Self::Expression) {
        Bound::new(self)
    }
}

impl<'a> AsExpression<VarChar> for &'a String {
    type Expression = Bound<VarChar, &'a String>;

    open spec fn spec_as_expression(self) -> Self::Expression {
        bound::<VarChar, &'a String>(self)
    }

    fn as_expression(self) -> (r: Self::Expression) {
        Bound::new(self)
    }
}

impl AsExpression<Nullable<VarChar>> for Option<String> {
    type Expression = Bound<Nullable<VarChar>, Option<String>>;

    open spec fn spec_as_expression(self) -> Self::Expression {
        bound::<Nullable<VarChar>, Option<String>>(self)
    }

    fn as_expression(self) -> (r: Self::Expression) {
        Bound::new(self)
    }
}

impl<'a> AsExpression<Nullable<VarChar>> for &'a Option<String> {
    type Expression = Bound<Nullable<VarChar>, &'a Option<String>>;

    open spec fn spec_as_expression(self) -> Self::Expression {
        bound::<Nullable<VarChar>, &'a Option<String>>(self)
    }

    fn as_expression(self) -> (r: Self::Expression) {
        Bound::new(self)
    }
}

impl AsExpression<Text> for String {
    type Expression = Bound<Text, String>;

    open spec fn spec_as_expression(self) -> Self::Expression {
        bound::<Text, String>(self)
    }

    fn as_expression(self) -> (r: Self::Expression) {
        Bound::new(self)
    }
}

impl<'a> AsExpression<Text> for &'a String {
    type Expression = Bound<Text, &'a String>;

    open spec fn spec_as_expression(self) -> Self::Expression {
        bound::<Text, &'a String>(self)
    }

    fn as_expression(self) -> (r: Self::Expression) {
        Bound::new(self)
    }
}

impl AsExpression<Nullable<Text>> for Option<String> {
    type Expression = Bound<Nullable<Text>, Option<String>>;

    open spec fn spec_as_expression(self) -> Self::Expression {
        bound::<Nullable<Text>, Option<String>>(self)
    }

    fn as_expression(self) -> (r: Self::Expression) {
        Bound::new(self)
    }
}

impl<'a> AsExpression<Nullable<Text>> for &'a Option<String> {
    type Expression = Bound<Nullable<Text>, &'a Option<String>>;

    open spec fn spec_as_expression(self) -> Self::Expression {
        bound::<Nullable<Text>, &'a Option<String>>(self)
    }

    fn as_expression(self) -> (r: Self::Expression) {
        Bound::new(self)
    }
}

impl AsExpression<Binary> for Vec<u8> {
    type Expression = Bound<Binary, Vec<u8>>;

    open spec fn spec_as_expression(self) -> Self::Expression {
        bound::<Binary, Vec<u8>>(self)
    }

    fn as_expression(self) -> (r: Self::Expression) {
        Bound::new(self)
    }
}

impl<'a> AsExpression<Binary> for &'a Vec<u8> {
    type Expression = Bound<Binary, &'a Vec<u8>>;

    open spec fn spec_as_expression(self) -> Self::Expression {
        bound::<Binary, &'a Vec<u8>>(self)
    }

    fn as_expression(self) -> (r: Self::Expression) {
        Bound::new(self)
    }
}

impl AsExpression<Nullable<Binary>> for Option<Vec<u8>> {
    type Expression = Bound<Nullable<Binary>, Option<Vec<u8>>>;

    open spec fn spec_as_expression(self) -> Self::Expression {
        bound::<Nullable<Binary>, Option<Vec<u8>>>(self)
    }

    fn as_expression(self) -> (r: Self::Expression) {
        Bound::new(self)
    }
}

impl<'a> AsExpression<Nullable<Binary>> for &'a Option<Vec<u8>> {
    type Expression = Bound<Nullable<Binary>, &'a Option<Vec<u8>>>;

    open spec fn spec_as_expression(self) -> Self::Expression {
        bound::<Nullable<Binary>, &'a Option<Vec<u8>>>(self)
    }

    fn as_expression(self) -> (r: Self::Expression) {
        Bound::new(self)
    }
}

impl<'a> AsExpression<VarChar> for &'a str {
    type Expression = Bound<VarChar, &'a str>;

    open spec fn spec_as_expression(self) -> Self::Expression {
        bound::<VarChar, &'a str>(self)
    }

    fn as_expression(self) -> (r: Self::Expression) {
        Bound::new(self)
    }
}

impl<'a> AsExpression<Nullable<VarChar>> for Option<&'a str> {
    type Expression = Bound<Nullable<VarChar>, Option<&'a str>>;

    open spec fn spec_as_expression(self) -> Self::Expression {
        bound::<Nullable<VarChar>, Option<&'a str>>(self)
    }

    fn as_expression(self) -> (r: Self::Expression) {
        Bound::new(self)
    }
}

impl<'a> AsExpression<Text> for &'a str {
    type Expression = Bound<Text, &'a str>;

    open spec fn spec_as_expression(self) -> Self::Expression {
        bound::<Text, &'a str>(self)
    }

    fn as_expression(self) -> (r: Self::Expression) {
        Bound::new(self)
    }
}

impl<'a> AsExpression<Nullable<Text>> for Option<&'a str> {
    type Expression = Bound<Nullable<Text>, Option<&'a str>>;

    open spec fn spec_as_expression(self) -> Self::Expression {
        bound::<Nullable<Text>, Option<&'a str>>(self)
    }

    fn as_expression(self) -> (r: Self::Expression) {
        Bound::new(self)
    }
}

impl AsExpression<Nullable<SmallInt>> for i16 {
    type Expression = Bound<Nullable<SmallInt>, Option<i16>>;

    open spec fn spec_as_expression(self) -> Self::Expression {
        bound::<Nullable<SmallInt>, Option<i16>>(Some(self))
    }

    fn as_expression(self) -> (r: Self::Expression) {
        Bound::new(Some(self))
    }
}

impl<'a> AsExpression<Nullable<SmallInt>> for &'a i16 {
    type Expression = Bound<Nullable<SmallInt>, Option<&'a i16>>;

    open spec fn spec_as_expression(self) -> Self::Expression {
        bound::<Nullable<SmallInt>, Option<&'a i16>>(Some(self))
    }

    fn as_expression(self) -> (r: Self::Expression) {
        Bound::new(Some(self))
    }
}

impl AsExpression<Nullable<SmallSerial>> for i16 {
    type Expression = Bound<Nullable<SmallSerial>, Option<i16>>;

    open spec fn spec_as_expression(self) -> Self::Expression {
        bound::<Nullable<SmallSerial>, Option<i16>>(Some(self))
    }

    fn as_expression(self) -> (r: Self::Expression) {
        Bound::new(Some(self))
    }
}

impl<'a> AsExpression<Nullable<SmallSerial>> for &'a i16 {
    type Expression = Bound<Nullable<SmallSerial>, Option<&'a i16>>;

    open spec fn spec_as_expression(self) -> Self::Expression {
        bound::<Nullable<SmallSerial>, Option<&'a i16>>(Some(self))
    }

    fn as_expression(self) -> (r: Self::Expression) {
        Bound::new(Some(self))
    }
}

impl AsExpression<Nullable<Integer>> for i32 {
    type Expression = Bound<Nullable<Integer>, Option<i32>>;

    open spec fn spec_as_expression(self) -> Self::Expression {
        bound::<Nullable<Integer>, Option<i32>>(Some(self))
    }

    fn as_expression(self) -> (r: Self::Expression) {
        Bound::new(Some(self))
    }
}

impl<'a> AsExpression<Nullable<Integer>> for &'a i32 {
    type Expression = Bound<Nullable<Integer>, Option<&'a i32>>;

    open spec fn spec_as_expression(self) -> Self::Expression {
        bound::<Nullable<Integer>, Option<&'a i32>>(Some(self))
    }

    fn as_expression(self) -> (r: Self::Expression) {
        Bound::new(Some(self))
    }
}

impl AsExpression<Nullable<Serial>> for i32 {
    type Expression = Bound<Nullable<Serial>, Option<i32>>;

    open spec fn spec_as_expression(self) -> Self::Expression {
        bound::<Nullable<Serial>, Option<i32>>(Some(self))
    }

    fn as_expression(self) -> (r: Self::Expression) {
        Bound::new(Some(self))
    }
}

impl<'a> AsExpression<Nullable<Serial>> for &'a i32 {
    type Expression = Bound<Nullable<Serial>, Option<&'a i32>>;

    open spec fn spec_as_expression(self) -> Self::Expression {
        bound::<Nullable<Serial>, Option<&'a i32>>(Some(self))
    }

    fn as_expression(self) -> (r: Self::Expression) {
        Bound::new(Some(self))
    }
}

impl AsExpression<Nullable<BigInt>> for i64 {
    type Expression = Bound<Nullable<BigInt>, Option<i64>>;

    open spec fn spec_as_expression(self) -> Self::Expression {
        bound::<Nullable<BigInt>, Option<i64>>(Some(self))
    }

    fn as_expression(self) -> (r: Self::Expression) {
        Bound::new(Some(self))
    }
}

impl<'a> AsExpression<Nullable<BigInt>> for &'a i64 {
    type Expression = Bound<Nullable<BigInt>, Option<&'a i64>>;

    open spec fn spec_as_expression(self) -> Self::Expression {
        bound::<Nullable<BigInt>, Option<&'a i64>>(Some(self))
    }

    fn as_expression(self) -> (r: Self::Expression) {
        Bound::new(Some(self))
    }
}

impl AsExpression<Nullable<BigSerial>> for i64 {
    type Expression = Bound<Nullable<BigSerial>, Option<i64>>;

    open spec fn spec_as_expression(self) -> Self::Expression {
        bound::<Nullable<BigSerial>, Option<i64>>(Some(self))
    }

    fn as_expression(self) -> (r: Self::Expression) {
        Bound::new(Some(self))
    }
}

impl<'a> AsExpression<Nullable<BigSerial>> for &'a i64 {
    type Expression = Bound<Nullable<BigSerial>, Option<&'a i64>>;

    open spec fn spec_as_expression(self) -> Self::Expression {
        bound::<Nullable<BigSerial>, Option<&'a i64>>(Some(self))
    }

    fn as_expression(self) -> (r: Self::Expression) {
        Bound::new(Some(self))
    }
}

impl AsExpression<Nullable<Bool>> for bool {
    type Expression = Bound<Nullable<Bool>, Option<bool>>;

    open spec fn spec_as_expression(self) -> Self::Expression {
        bound::<Nullable<Bool>, Option<bool>>(Some(self))
    }

    fn as_expression(self) -> (r: Self::Expression) {
        Bound::new(Some(self))
    }
}

impl<'a> AsExpression<Nullable<Bool>> for &'a bool {
    type Expression = Bound<Nullable<Bool>, Option<&'a bool>>;

    open spec fn spec_as_expression(self) -> Self::Expression {
        bound::<Nullable<Bool>, Option<&'a bool>>(Some(self))
    }

    fn as_expression(self) -> (r: Self::Expression) {
        Bound::new(Some(self))
    }
}

impl AsExpression<Nullable<VarChar>> for String {
    type Expression = Bound<Nullable<VarChar>, Option<String>>;

    open spec fn spec_as_expression(self) -> Self::Expression {
        bound::<Nullable<VarChar>, Option<String>>(Some(self))
    }

    fn as_expression(self) -> (r: Self::Expression) {
        Bound::new(Some(self))
    }
}

impl<'a> AsExpression<Nullable<VarChar>> for &'a String {
    type Expression = Bound<Nullable<VarChar>, Option<&'a String>>;

    open spec fn spec_as_expression(self) -> Self::Expression {
        bound::<Nullable<VarChar>, Option<&'a String>>(Some(self))
    }

    fn as_expression(self) -> (r: Self::Expression) {
        Bound::new(Some(self))
    }
}

impl AsExpression<Nullable<Text>> for String {
    type Expression = Bound<Nullable<Text>, Option<String>>;

    open spec fn spec_as_expression(self) -> Self::Expression {
        bound::<Nullable<Text>, Option<String>>(Some(self))
    }

    fn as_expression(self) -> (r: Self::Expression) {
        Bound::new(Some(self))
    }
}

impl<'a> AsExpression<Nullable<Text>> for &'a String {
    type Expression = Bound<Nullable<Text>, Option<&'a String>>;

    open spec fn spec_as_expression(self) -> Self::Expression {
        bound::<Nullable<Text>, Option<&'a String>>(Some(self))
    }

    fn as_expression(self) -> (r: Self::Expression) {
        Bound::new(Some(self))
    }
}

impl AsExpression<Nullable<Binary>> for Vec<u8> {
    type Expression = Bound<Nullable<Binary>, Option<Vec<u8>>>;

    open spec fn spec_as_expression(self) -> Self::Expression {
        bound::<Nullable<Binary>, Option<Vec<u8>>>(Some(self))
    }

    fn as_expression(self) -> (r: Self::Expression) {
        Bound::new(Some(self))
    }
}

impl<'a> AsExpression<Nullable<Binary>> for &'a Vec<u8> {
    type Expression = Bound<Nullable<Binary>, Option<&'a Vec<u8>>>;

    open spec fn spec_as_expression(self) -> Self::Expression {
        bound::<Nullable<Binary>, Option<&'a Vec<u8>>>(Some(self))
    }

    fn as_expression(self) -> (r: Self::Expression) {
        Bound::new(Some(self))
    }
}

impl<'a> AsExpression<Nullable<VarChar>> for &'a str {
    type Expression = Bound<Nullable<VarChar>, Option<&'a str>>;

    open spec fn spec_as_expression(self) -> Self::Expression {
        bound::<Nullable<VarChar>, Option<&'a str>>(Some(self))
    }

    fn as_expression(self) -> (r: Self::Expression) {
        Bound::new(Some(self))
    }
}

impl<'a> AsExpression<Nullable<Text>> for &'a str {
    type Expression = Bound<Nullable<Text>, Option<&'a str>>;

    open spec fn spec_as_expression(self) -> Self::Expression {
        bound::<Nullable<Text>, Option<&'a str>>(Some(self))
    }

    fn as_expression(self) -> (r: Self::Expression) {
        Bound::new(Some(self))
    }
}

} // verus!
