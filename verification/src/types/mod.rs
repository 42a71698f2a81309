pub mod impls;
pub mod ops;

use vstd::prelude::*;
use crate::query_builder::{Binds, binds_view};
use crate::result::DecodeError;
use crate::row::{Row, Rows, first_cell, cells_after, cell_view};

verus! {

/// The SQL type of truth values.
pub struct Bool;

/// The SQL type of 16-bit integers that the backend numbers by itself.
pub struct SmallSerial;

/// The SQL type of 32-bit integers that the backend numbers by itself.
pub struct Serial;

/// The SQL type of 64-bit integers that the backend numbers by itself.
pub struct BigSerial;

/// The SQL type of 16-bit integers.
pub struct SmallInt;

/// The SQL type of 32-bit integers.
pub struct Integer;

/// The SQL type of 64-bit integers.
pub struct BigInt;

/// The SQL type of single precision numbers.
pub struct Float;

/// The SQL type of double precision numbers.
pub struct Double;

/// The SQL type of texts of bounded length.
pub struct VarChar;

/// The SQL type of texts.
pub struct Text;

/// The SQL type of byte strings.
pub struct Binary;

/// The SQL type `T` with NULL added.
pub struct Nullable<T: NativeSqlType>(T);

/// The SQL type of arrays over `T`.
pub struct Array<T: NativeSqlType>(T);

/// The type of all rows of a result, each of the SQL type `T`.
pub struct Many<T: NativeSqlType>(T);

/// A marker for a SQL type. It knows the numbers by which the backend names
/// the type and the array type over it; 0 where the backend has no such type.
pub trait NativeSqlType {
    spec fn spec_oid() -> u32;

    spec fn spec_array_oid() -> u32;

    fn oid() -> (r: u32)
        ensures
            r == Self::spec_oid(),
    ;

    fn array_oid() -> (r: u32)
        ensures
            r == Self::spec_array_oid(),
    ;
}

/// A marker for the SQL types whose values are ordered.
pub trait SqlOrd {
}

impl SqlOrd for SmallSerial {
}

impl SqlOrd for Serial {
}

impl SqlOrd for BigSerial {
}

impl SqlOrd for SmallInt {
}

impl SqlOrd for Integer {
}

impl SqlOrd for BigInt {
}

impl SqlOrd for Float {
}

impl SqlOrd for Double {
}

impl SqlOrd for VarChar {
}

impl SqlOrd for Text {
}

impl<T: SqlOrd + NativeSqlType> SqlOrd for Nullable<T> {
}

/// Reading one cell as a value of the SQL type `A`.
pub trait FromSql<A: NativeSqlType>: Sized {
    /// Whether `value` is what a cell with these bytes holds.
    spec fn decodes(bytes: Option<Seq<u8>>, value: Self) -> bool;

    /// The error for a cell that holds no value of this type; `None` where it holds one.
    spec fn rejects(bytes: Option<Seq<u8>>) -> Option<DecodeError>;

    fn from_sql(bytes: Option<&[u8]>) -> (r: Result<Self, DecodeError>)
        ensures
            match r {
                Ok(v) => Self::rejects(cell_view(bytes)) is None && Self::decodes(cell_view(bytes), v),
                Err(e) => Self::rejects(cell_view(bytes)) == Some(e),
            },
    ;
}

/// Reading the next cells of a row as a value of the SQL type `A`.
pub trait FromSqlRow<A: NativeSqlType>: Sized {
    /// How many cells one value takes.
    spec fn width() -> nat;

    /// Whether `value` is what the first `width()` of these cells hold.
    spec fn row_decodes(cells: Seq<Option<Seq<u8>>>, value: Self) -> bool;

    /// The error of the leftmost cell that cannot be read; `None` where all can.
    spec fn row_rejects(cells: Seq<Option<Seq<u8>>>) -> Option<DecodeError>;

    /// How many cells reading one value consumes, whether or not it
    /// succeeds: all `width()` of them where every cell can be read, and
    /// those up to the leftmost that cannot, that one included, otherwise.
    spec fn taken(cells: Seq<Option<Seq<u8>>>) -> nat;

    fn build_from_row<R: Row>(row: &mut R) -> (r: Result<Self, DecodeError>)
        ensures
            final(row).remaining() == cells_after(old(row).remaining(), Self::taken(old(row).remaining())),
            match r {
                Ok(v) => {
                    &&& Self::row_rejects(old(row).remaining()) is None
                    &&& Self::row_decodes(old(row).remaining(), v)
                    &&& Self::taken(old(row).remaining()) == Self::width()
                },
                Err(e) => Self::row_rejects(old(row).remaining()) == Some(e),
            },
    ;
}

impl<A, T> FromSqlRow<A> for T where A: NativeSqlType, T: FromSql<A> {
    open spec fn width() -> nat {
        1
    }

    open spec fn row_decodes(cells: Seq<Option<Seq<u8>>>, value: Self) -> bool {
        T::decodes(first_cell(cells), value)
    }

    open spec fn row_rejects(cells: Seq<Option<Seq<u8>>>) -> Option<DecodeError> {
        T::rejects(first_cell(cells))
    }

    open spec fn taken(cells: Seq<Option<Seq<u8>>>) -> nat {
        1
    }

    fn build_from_row<R: Row>(row: &mut R) -> (r: Result<Self, DecodeError>) {
        let bytes = row.take();
        Self::from_sql(bytes)
    }
}

impl<A, B, TA, TB> FromSqlRow<(A, B)> for (TA, TB) where
    A: NativeSqlType,
    B: NativeSqlType,
    TA: FromSqlRow<A>,
    TB: FromSqlRow<B>,
{
    open spec fn width() -> nat {
        TA::width() + TB::width()
    }

    open spec fn row_decodes(cells: Seq<Option<Seq<u8>>>, value: Self) -> bool {
        &&& TA::row_decodes(cells, value.0)
        &&& TB::row_decodes(cells_after(cells, TA::width()), value.1)
    }

    open spec fn row_rejects(cells: Seq<Option<Seq<u8>>>) -> Option<DecodeError> {
        if TA::row_rejects(cells) is Some {
            TA::row_rejects(cells)
        } else {
            TB::row_rejects(cells_after(cells, TA::width()))
        }
    }

    open spec fn taken(cells: Seq<Option<Seq<u8>>>) -> nat {
        if TA::row_rejects(cells) is Some {
            TA::taken(cells)
        } else {
            TA::width() + TB::taken(cells_after(cells, TA::width()))
        }
    }

    fn build_from_row<R: Row>(row: &mut R) -> (r: Result<Self, DecodeError>) {
        let ghost cells = old(row).remaining();
        let a = match TA::build_from_row(row) {
            Ok(a) => a,
            Err(e) => {
                return Err(e);
            },
        };
        proof {
            lemma_cells_after_twice(cells, TA::width(), TB::taken(cells_after(cells, TA::width())));
        }
        let b = match TB::build_from_row(row) {
            Ok(b) => b,
            Err(e) => {
                return Err(e);
            },
        };
        Ok((a, b))
    }
}

impl NativeSqlType for Bool {
    open spec fn spec_oid() -> u32 {
        16
    }

    open spec fn spec_array_oid() -> u32 {
        1000
    }

    fn oid() -> (r: u32) {
        16
    }

    fn array_oid() -> (r: u32) {
        1000
    }
}

impl NativeSqlType for SmallSerial {
    open spec fn spec_oid() -> u32 {
        21
    }

    open spec fn spec_array_oid() -> u32 {
        1005
    }

    fn oid() -> (r: u32) {
        21
    }

    fn array_oid() -> (r: u32) {
        1005
    }
}

impl NativeSqlType for Serial {
    open spec fn spec_oid() -> u32 {
        23
    }

    open spec fn spec_array_oid() -> u32 {
        1007
    }

    fn oid() -> (r: u32) {
        23
    }

    fn array_oid() -> (r: u32) {
        1007
    }
}

impl NativeSqlType for BigSerial {
    open spec fn spec_oid() -> u32 {
        20
    }

    open spec fn spec_array_oid() -> u32 {
        1016
    }

    fn oid() -> (r: u32) {
        20
    }

    fn array_oid() -> (r: u32) {
        1016
    }
}

impl NativeSqlType for SmallInt {
    open spec fn spec_oid() -> u32 {
        21
    }

    open spec fn spec_array_oid() -> u32 {
        1005
    }

    fn oid() -> (r: u32) {
        21
    }

    fn array_oid() -> (r: u32) {
        1005
    }
}

impl NativeSqlType for Integer {
    open spec fn spec_oid() -> u32 {
        23
    }

    open spec fn spec_array_oid() -> u32 {
        1007
    }

    fn oid() -> (r: u32) {
        23
    }

    fn array_oid() -> (r: u32) {
        1007
    }
}

impl NativeSqlType for BigInt {
    open spec fn spec_oid() -> u32 {
        20
    }

    open spec fn spec_array_oid() -> u32 {
        1016
    }

    fn oid() -> (r: u32) {
        20
    }

    fn array_oid() -> (r: u32) {
        1016
    }
}

impl NativeSqlType for Float {
    open spec fn spec_oid() -> u32 {
        700
    }

    open spec fn spec_array_oid() -> u32 {
        1021
    }

    fn oid() -> (r: u32) {
        700
    }

    fn array_oid() -> (r: u32) {
        1021
    }
}

impl NativeSqlType for Double {
    open spec fn spec_oid() -> u32 {
        701
    }

    open spec fn spec_array_oid() -> u32 {
        1022
    }

    fn oid() -> (r: u32) {
        701
    }

    fn array_oid() -> (r: u32) {
        1022
    }
}

impl NativeSqlType for VarChar {
    open spec fn spec_oid() -> u32 {
        1043
    }

    open spec fn spec_array_oid() -> u32 {
        1015
    }

    fn oid() -> (r: u32) {
        1043
    }

    fn array_oid() -> (r: u32) {
        1015
    }
}

impl NativeSqlType for Text {
    open spec fn spec_oid() -> u32 {
        25
    }

    open spec fn spec_array_oid() -> u32 {
        1009
    }

    fn oid() -> (r: u32) {
        25
    }

    fn array_oid() -> (r: u32) {
        1009
    }
}

impl NativeSqlType for Binary {
    open spec fn spec_oid() -> u32 {
        17
    }

    open spec fn spec_array_oid() -> u32 {
        1001
    }

    fn oid() -> (r: u32) {
        17
    }

    fn array_oid() -> (r: u32) {
        1001
    }
}

impl<T: NativeSqlType> NativeSqlType for Nullable<T> {
    open spec fn spec_oid() -> u32 {
        T::spec_oid()
    }

    open spec fn spec_array_oid() -> u32 {
        T::spec_array_oid()
    }

    fn oid() -> (r: u32) {
        T::oid()
    }

    fn array_oid() -> (r: u32) {
        T::array_oid()
    }
}

impl<T: NativeSqlType> NativeSqlType for Array<T> {
    open spec fn spec_oid() -> u32 {
        T::spec_array_oid()
    }

    open spec fn spec_array_oid() -> u32 {
        0
    }

    fn oid() -> (r: u32) {
        T::array_oid()
    }

    fn array_oid() -> (r: u32) {
        0
    }
}

impl NativeSqlType for () {
    open spec fn spec_oid() -> u32 {
        0
    }

    open spec fn spec_array_oid() -> u32 {
        0
    }

    fn oid() -> (r: u32) {
        0
    }

    fn array_oid() -> (r: u32) {
        0
    }
}

impl<T: NativeSqlType> NativeSqlType for Many<T> {
    open spec fn spec_oid() -> u32 {
        0
    }

    open spec fn spec_array_oid() -> u32 {
        0
    }

    fn oid() -> (r: u32) {
        0
    }

    fn array_oid() -> (r: u32) {
        0
    }
}

impl<A: NativeSqlType, B: NativeSqlType> NativeSqlType for (A, B) {
    open spec fn spec_oid() -> u32 {
        0
    }

    open spec fn spec_array_oid() -> u32 {
        0
    }

    fn oid() -> (r: u32) {
        0
    }

    fn array_oid() -> (r: u32) {
        0
    }
}

impl<A: NativeSqlType, B: NativeSqlType, C: NativeSqlType> NativeSqlType for (A, B, C) {
    open spec fn spec_oid() -> u32 {
        0
    }

    open spec fn spec_array_oid() -> u32 {
        0
    }

    fn oid() -> (r: u32) {
        0
    }

    fn array_oid() -> (r: u32) {
        0
    }
}

impl<A: NativeSqlType, B: NativeSqlType, C: NativeSqlType, D: NativeSqlType> NativeSqlType for (A, B, C, D) {
    open spec fn spec_oid() -> u32 {
        0
    }

    open spec fn spec_array_oid() -> u32 {
        0
    }

    fn oid() -> (r: u32) {
        0
    }

    fn array_oid() -> (r: u32) {
        0
    }
}

impl<A, B, C, TA, TB, TC> FromSqlRow<(A, B, C)> for (TA, TB, TC) where
    A: NativeSqlType,
    B: NativeSqlType,
    C: NativeSqlType,
    TA: FromSqlRow<A>,
    TB: FromSqlRow<B>,
    TC: FromSqlRow<C>,
{
    open spec fn width() -> nat {
        TA::width() + TB::width() + TC::width()
    }

    open spec fn row_decodes(cells: Seq<Option<Seq<u8>>>, value: Self) -> bool {
        &&& TA::row_decodes(cells, value.0)
        &&& TB::row_decodes(cells_after(cells, TA::width()), value.1)
        &&& TC::row_decodes(cells_after(cells, TA::width() + TB::width()), value.2)
    }

    open spec fn row_rejects(cells: Seq<Option<Seq<u8>>>) -> Option<DecodeError> {
        if TA::row_rejects(cells) is Some {
            TA::row_rejects(cells)
        } else if TB::row_rejects(cells_after(cells, TA::width())) is Some {
            TB::row_rejects(cells_after(cells, TA::width()))
        } else {
            TC::row_rejects(cells_after(cells, TA::width() + TB::width()))
        }
    }

    open spec fn taken(cells: Seq<Option<Seq<u8>>>) -> nat {
        if TA::row_rejects(cells) is Some {
            TA::taken(cells)
        } else if TB::row_rejects(cells_after(cells, TA::width())) is Some {
            TA::width() + TB::taken(cells_after(cells, TA::width()))
        } else {
            TA::width() + TB::width() + TC::taken(cells_after(cells, TA::width() + TB::width()))
        }
    }

    fn build_from_row<R: Row>(row: &mut R) -> (r: Result<Self, DecodeError>) {
        let ghost cells = old(row).remaining();
        let a = match TA::build_from_row(row) {
            Ok(a) => a,
            Err(e) => {
                return Err(e);
            },
        };
        proof {
            lemma_cells_after_twice(cells, TA::width(), TB::taken(cells_after(cells, TA::width())));
        }
        let b = match TB::build_from_row(row) {
            Ok(b) => b,
            Err(e) => {
                return Err(e);
            },
        };
        proof {
            lemma_cells_after_twice(cells, TA::width() + TB::width(), TC::taken(cells_after(cells, TA::width() + TB::width())));
        }
        let c = match TC::build_from_row(row) {
            Ok(c) => c,
            Err(e) => {
                return Err(e);
            },
        };
        Ok((a, b, c))
    }
}

impl<A, B, C, D, TA, TB, TC, TD> FromSqlRow<(A, B, C, D)> for (TA, TB, TC, TD) where
    A: NativeSqlType,
    B: NativeSqlType,
    C: NativeSqlType,
    D: NativeSqlType,
    TA: FromSqlRow<A>,
    TB: FromSqlRow<B>,
    TC: FromSqlRow<C>,
    TD: FromSqlRow<D>,
{
    open spec fn width() -> nat {
        TA::width() + TB::width() + TC::width() + TD::width()
    }

    open spec fn row_decodes(cells: Seq<Option<Seq<u8>>>, value: Self) -> bool {
        &&& TA::row_decodes(cells, value.0)
        &&& TB::row_decodes(cells_after(cells, TA::width()), value.1)
        &&& TC::row_decodes(cells_after(cells, TA::width() + TB::width()), value.2)
        &&& TD::row_decodes(cells_after(cells, TA::width() + TB::width() + TC::width()), value.3)
    }

    open spec fn row_rejects(cells: Seq<Option<Seq<u8>>>) -> Option<DecodeError> {
        if TA::row_rejects(cells) is Some {
            TA::row_rejects(cells)
        } else if TB::row_rejects(cells_after(cells, TA::width())) is Some {
            TB::row_rejects(cells_after(cells, TA::width()))
        } else if TC::row_rejects(cells_after(cells, TA::width() + TB::width())) is Some {
            TC::row_rejects(cells_after(cells, TA::width() + TB::width()))
        } else {
            TD::row_rejects(cells_after(cells, TA::width() + TB::width() + TC::width()))
        }
    }

    open spec fn taken(cells: Seq<Option<Seq<u8>>>) -> nat {
        if TA::row_rejects(cells) is Some {
            TA::taken(cells)
        } else if TB::row_rejects(cells_after(cells, TA::width())) is Some {
            TA::width() + TB::taken(cells_after(cells, TA::width()))
        } else if TC::row_rejects(cells_after(cells, TA::width() + TB::width())) is Some {
            TA::width() + TB::width() + TC::taken(cells_after(cells, TA::width() + TB::width()))
        } else {
            TA::width() + TB::width() + TC::width() + TD::taken(cells_after(cells, TA::width() + TB::width() + TC::width()))
        }
    }

    fn build_from_row<R: Row>(row: &mut R) -> (r: Result<Self, DecodeError>) {
        let ghost cells = old(row).remaining();
        let a = match TA::build_from_row(row) {
            Ok(a) => a,
            Err(e) => {
                return Err(e);
            },
        };
        proof {
            lemma_cells_after_twice(cells, TA::width(), TB::taken(cells_after(cells, TA::width())));
        }
        let b = match TB::build_from_row(row) {
            Ok(b) => b,
            Err(e) => {
                return Err(e);
            },
        };
        proof {
            lemma_cells_after_twice(cells, TA::width() + TB::width(), TC::taken(cells_after(cells, TA::width() + TB::width())));
        }
        let c = match TC::build_from_row(row) {
            Ok(c) => c,
            Err(e) => {
                return Err(e);
            },
        };
        proof {
            lemma_cells_after_twice(cells, TA::width() + TB::width() + TC::width(), TD::taken(cells_after(cells, TA::width() + TB::width() + TC::width())));
        }
        let d = match TD::build_from_row(row) {
            Ok(d) => d,
            Err(e) => {
                return Err(e);
            },
        };
        Ok((a, b, c, d))
    }
}

/// Reading rows of a result as a value of the SQL type `A`.
pub trait FromSqlResult<A: NativeSqlType>: Sized {
    /// Whether there is nothing to read a value from.
    spec fn exhausted(pending: Seq<Seq<Option<Seq<u8>>>>) -> bool;

    /// How many of the pending rows reading one value consumes, whether or
    /// not it succeeds.
    spec fn rows_taken(pending: Seq<Seq<Option<Seq<u8>>>>) -> nat;

    /// Whether `value` is what the rows that it takes hold.
    spec fn rows_decode(pending: Seq<Seq<Option<Seq<u8>>>>, value: Self) -> bool;

    /// The error of the first row that cannot be read; `None` where all can.
    spec fn rows_reject(pending: Seq<Seq<Option<Seq<u8>>>>) -> Option<DecodeError>;

    fn build_from_rows<RS: Rows>(rows: &mut RS) -> (r: Option<Result<Self, DecodeError>>)
        ensures
            r is None <==> Self::exhausted(old(rows).pending()),
            r is None ==> final(rows).pending() == old(rows).pending(),
            r is Some ==> Self::rows_taken(old(rows).pending()) <= old(rows).pending().len()
                && final(rows).pending() == old(rows).pending().skip(
                Self::rows_taken(old(rows).pending()) as int,
            ),
            r matches Some(Ok(v)) ==> Self::rows_reject(old(rows).pending()) is None
                && Self::rows_decode(old(rows).pending(), v),
            r matches Some(Err(e)) ==> Self::rows_reject(old(rows).pending()) == Some(e),
    ;
}

impl<A, T> FromSqlResult<A> for T where A: NativeSqlType, T: FromSqlRow<A> {
    open spec fn exhausted(pending: Seq<Seq<Option<Seq<u8>>>>) -> bool {
        pending.len() == 0
    }

    open spec fn rows_taken(pending: Seq<Seq<Option<Seq<u8>>>>) -> nat {
        1
    }

    open spec fn rows_decode(pending: Seq<Seq<Option<Seq<u8>>>>, value: Self) -> bool {
        T::row_decodes(pending[0], value)
    }

    open spec fn rows_reject(pending: Seq<Seq<Option<Seq<u8>>>>) -> Option<DecodeError> {
        T::row_rejects(pending[0])
    }

    fn build_from_rows<RS: Rows>(rows: &mut RS) -> (r: Option<Result<Self, DecodeError>>) {
        match rows.next() {
            Some(mut row) => Some(Self::build_from_row(&mut row)),
            None => None,
        }
    }
}

/// The error of the first of the rows that cannot be read as a `T`.
pub open spec fn many_reject<A: NativeSqlType, T: FromSqlRow<A>>(
    pending: Seq<Seq<Option<Seq<u8>>>>,
) -> Option<DecodeError>
    decreases pending.len(),
{
    if pending.len() == 0 {
        None
    } else if T::row_rejects(pending[0]) is Some {
        T::row_rejects(pending[0])
    } else {
        many_reject::<A, T>(pending.skip(1))
    }
}

/// How many rows are consumed when all are read as `T`s: all of them, or those
/// up to the first that cannot be read, that one included.
pub open spec fn many_taken<A: NativeSqlType, T: FromSqlRow<A>>(
    pending: Seq<Seq<Option<Seq<u8>>>>,
) -> nat
    decreases pending.len(),
{
    if pending.len() == 0 {
        0
    } else if T::row_rejects(pending[0]) is Some {
        1
    } else {
        1 + many_taken::<A, T>(pending.skip(1))
    }
}

/// Where the first `k` rows can be read, the first that cannot is the first
/// that cannot among the others.
pub proof fn lemma_many_prefix<A: NativeSqlType, T: FromSqlRow<A>>(
    pending: Seq<Seq<Option<Seq<u8>>>>,
    k: nat,
)
    requires
        k <= pending.len(),
        forall|i: int| 0 <= i < k ==> T::row_rejects(#[trigger] pending[i]) is None,
    ensures
        many_reject::<A, T>(pending) == many_reject::<A, T>(pending.skip(k as int)),
        many_taken::<A, T>(pending) == k + many_taken::<A, T>(pending.skip(k as int)),
        many_taken::<A, T>(pending) <= pending.len(),
    decreases k,
{
    if k == 0 {
        assert(pending.skip(0) =~= pending);
        lemma_many_bound::<A, T>(pending);
    } else {
        lemma_many_prefix::<A, T>(pending, (k - 1) as nat);
        let before = pending.skip(k - 1);
        assert(before[0] == pending[k - 1]);
        assert(before.skip(1) =~= pending.skip(k as int));
        lemma_many_bound::<A, T>(pending.skip(k as int));
    }
}

/// Reading rows consumes no more rows than there are.
pub proof fn lemma_many_bound<A: NativeSqlType, T: FromSqlRow<A>>(pending: Seq<Seq<Option<Seq<u8>>>>)
    ensures
        many_taken::<A, T>(pending) <= pending.len(),
    decreases pending.len(),
{
    if pending.len() > 0 {
        lemma_many_bound::<A, T>(pending.skip(1));
    }
}

impl<A, T> FromSqlResult<Many<A>> for Vec<T> where A: NativeSqlType, T: FromSqlRow<A> {
    open spec fn exhausted(pending: Seq<Seq<Option<Seq<u8>>>>) -> bool {
        false
    }

    open spec fn rows_taken(pending: Seq<Seq<Option<Seq<u8>>>>) -> nat {
        many_taken::<A, T>(pending)
    }

    open spec fn rows_decode(pending: Seq<Seq<Option<Seq<u8>>>>, value: Self) -> bool {
        &&& value@.len() == pending.len()
        &&& forall|i: int| 0 <= i < pending.len() ==> T::row_decodes(pending[i], #[trigger] value@[i])
    }

    open spec fn rows_reject(pending: Seq<Seq<Option<Seq<u8>>>>) -> Option<DecodeError> {
        many_reject::<A, T>(pending)
    }

    fn build_from_rows<RS: Rows>(rows: &mut RS) -> (r: Option<Result<Self, DecodeError>>) {
        let ghost pending = rows.pending();
        let mut values: Vec<T> = Vec::new();
        assert(pending.skip(0) =~= pending);
        loop
            invariant
                pending == old(rows).pending(),
                values@.len() <= pending.len(),
                rows.pending() == pending.skip(values@.len() as int),
                forall|i: int| 0 <= i < values@.len() ==> T::row_rejects(#[trigger] pending[i]) is None,
                forall|i: int| 0 <= i < values@.len() ==> T::row_decodes(pending[i], #[trigger] values@[i]),
            decreases pending.len() - values@.len(),
        {
            let ghost k = values@.len();
            proof {
                lemma_many_prefix::<A, T>(pending, k);
            }
            match rows.next() {
                None => {
                    return Some(Ok(values));
                },
                Some(mut row) => {
                    proof {
                        assert(pending.skip(k as int)[0] == pending[k as int]);
                        assert(pending.skip(k as int).skip(1) =~= pending.skip(k as int + 1));
                    }
                    match T::build_from_row(&mut row) {
                        Ok(value) => {
                            values.push(value);
                        },
                        Err(e) => {
                            return Some(Err(e));
                        },
                    }
                },
            }
        }
    }
}

/// Whether a value is SQL NULL and so has no bytes.
#[derive(Debug, PartialEq, Eq, Structural)]
pub enum IsNull {
    Yes,
    No,
}

/// Writing a value of the SQL type `A` as the bytes that are sent for it.
pub trait ToSql<A: NativeSqlType> {
    /// The bytes that stand for this value; `None` for SQL NULL.
    spec fn encoded(&self) -> Option<Seq<u8>>;

    /// Appends the value's bytes to `out`; appends nothing for NULL.
    fn to_sql(&self, out: &mut Vec<u8>) -> (r: IsNull)
        ensures
            match self.encoded() {
                Some(bytes) => r == IsNull::No && final(out)@ == old(out)@ + bytes,
                None => r == IsNull::Yes && final(out)@ == old(out)@,
            },
    ;
}

impl<'a, A: NativeSqlType, T: ToSql<A>> ToSql<A> for &'a T {
    open spec fn encoded(&self) -> Option<Seq<u8>> {
        (**self).encoded()
    }

    fn to_sql(&self, out: &mut Vec<u8>) -> (r: IsNull) {
        (**self).to_sql(out)
    }
}

/// A type whose values are read back as they were written, as values of the
/// SQL type `A`: what the decoder reads from the bytes that the encoder
/// wrote is the value that was written, and nothing else.
pub trait RoundTrip<A: NativeSqlType>: ToSql<A> + FromSql<A> {
    /// Whether two values are the same value; two texts are, where they
    /// have the same characters.
    spec fn same(self, other: Self) -> bool;

    /// The cell that `v` is written as is read without error, and it is
    /// read as `w` if and only if `w` is the same value as `v`.
    proof fn lemma_round_trip(v: Self, w: Self)
        ensures
            Self::rejects(v.encoded()) is None,
            Self::decodes(v.encoded(), w) <==> v.same(w),
    ;
}

/// A type that round-trips and none of whose values is written as NULL.
pub trait NotNull<A: NativeSqlType>: RoundTrip<A> {
    proof fn lemma_not_null(v: Self)
        ensures
            v.encoded() is Some,
    ;
}

/// A value that is written as one bound value and read back from a row
/// whose next cell holds that bound value is read without error, as the
/// same value and as no other.
pub proof fn lemma_row_round_trip<A: NativeSqlType, T: RoundTrip<A>>(
    v: T,
    w: T,
    cells: Seq<Option<Seq<u8>>>,
)
    requires
        cells.len() > 0,
        seq![cells[0]] == v.encoded_values(),
    ensures
        <T as FromSqlRow<A>>::row_rejects(cells) is None,
        <T as FromSqlRow<A>>::row_decodes(cells, w) <==> v.same(w),
        <T as FromSqlRow<A>>::taken(cells) == 1,
{
    T::lemma_round_trip(v, w);
    assert(seq![cells[0]][0] == v.encoded_values()[0]);
}

/// Writing a value as the list of bound values that it stands for.
pub trait ValuesToSql<A: NativeSqlType> {
    /// The bound values, in order.
    spec fn encoded_values(&self) -> Seq<Option<Seq<u8>>>;

    fn values_to_sql(&self) -> (r: Binds)
        ensures
            binds_view(r) == self.encoded_values(),
    ;
}

impl<A, T> ValuesToSql<A> for T where A: NativeSqlType, T: ToSql<A> {
    open spec fn encoded_values(&self) -> Seq<Option<Seq<u8>>> {
        seq![self.encoded()]
    }

    fn values_to_sql(&self) -> (r: Binds) {
        let mut bytes: Vec<u8> = Vec::new();
        let bytes = match self.to_sql(&mut bytes) {
            IsNull::No => Some(bytes),
            IsNull::Yes => None,
        };
        let mut r: Binds = Vec::new();
        r.push(bytes);
        assert(binds_view(r) =~= seq![self.encoded()]);
        r
    }
}

/// Consuming `m` cells and then `n` more is consuming `m + n`.
pub proof fn lemma_cells_after_twice(cells: Seq<Option<Seq<u8>>>, m: nat, n: nat)
    ensures
        cells_after(cells_after(cells, m), n) == cells_after(cells, m + n),
{
    assert(cells_after(cells_after(cells, m), n) =~= cells_after(cells, m + n));
}

} // verus!
