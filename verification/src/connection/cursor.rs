use vstd::prelude::*;
use std::marker::PhantomData;
use crate::db_result::DbResult;
use crate::query_source::Queriable;
use crate::result::DecodeError;
use crate::row::{DbRows, Rows};
use crate::types::{FromSqlRow, NativeSqlType};

verus! {

/// The rows of one result, read one by one as records of type `T` from rows
/// of the SQL type `ST`. It goes forward only and cannot be started again.
/// It stops at the first row that cannot be read: that row's error is
/// reported once, and no row after it is read.
pub struct Cursor<ST, T> {
    pub rows: DbRows,
    pub stopped: bool,
    pub _marker: PhantomData<(ST, T)>,
}

impl<ST, T> Cursor<ST, T> {
    pub fn new(db_result: DbResult) -> (r: Self)
        ensures
            r.rows.db_result == db_result,
            r.rows.row_idx == 0,
            !r.stopped,
            r.pending() == db_result.cells(),
    {
        Cursor { rows: DbRows::new(db_result), stopped: false, _marker: PhantomData }
    }

    /// The rows that are still to be read: none once the cursor has stopped.
    pub open spec fn pending(&self) -> Seq<Seq<Option<Seq<u8>>>> {
        if self.stopped {
            Seq::empty()
        } else {
            self.rows.pending()
        }
    }

    /// How many rows have been taken from the result; where the cursor has
    /// stopped at a row that could not be read, that row is the last of them.
    pub fn row_index(&self) -> (r: usize)
        ensures
            r == self.rows.row_idx,
    {
        self.rows.row_idx
    }

    /// Whether the cursor has stopped at a row that could not be read.
    pub fn is_stopped(&self) -> (r: bool)
        ensures
            r == self.stopped,
    {
        self.stopped
    }
}

/// Whether `record` is a record that `T` builds from what the cells of a
/// row hold.
pub open spec fn reads_as<ST: NativeSqlType, T: Queriable<ST>>(
    cells: Seq<Option<Seq<u8>>>,
    record: T,
) -> bool {
    exists|row: T::Row|
        <T::Row as FromSqlRow<ST>>::row_decodes(cells, row) && #[trigger] call_ensures(
            <T as Queriable<ST>>::build,
            (row,),
            record,
        )
}

impl<ST, T> Cursor<ST, T> where ST: NativeSqlType, T: Queriable<ST> {
    /// Reads the next row and builds a record from it. `None` when no row is
    /// left to read. Where a cell of the row cannot be read, the error of the
    /// leftmost such cell is returned and the cursor stops: every later call
    /// returns `None`, and the row index stays behind the row that failed.
    pub fn next(&mut self) -> (r: Option<Result<T, DecodeError>>)
        ensures
            old(self).pending().len() == 0 <==> r is None,
            final(self).rows.db_result == old(self).rows.db_result,
            final(self).rows.row_idx == if r is Some {
                old(self).rows.row_idx + 1
            } else {
                old(self).rows.row_idx as int
            },
            final(self).stopped == (old(self).stopped || r matches Some(Err(_))),
            r matches Some(Ok(_)) ==> final(self).pending() == old(self).pending().skip(1),
            r matches Some(Ok(record)) ==> <T::Row as FromSqlRow<ST>>::row_rejects(
                old(self).pending()[0],
            ) is None && reads_as::<ST, T>(old(self).pending()[0], record),
            r matches Some(Err(e)) ==> <T::Row as FromSqlRow<ST>>::row_rejects(
                old(self).pending()[0],
            ) == Some(e),
    {
        if self.stopped {
            return None;
        }
        match self.rows.next() {
            None => None,
            Some(mut row) => match <T::Row as FromSqlRow<ST>>::build_from_row(&mut row) {
                Ok(value) => {
                    let ghost read = value;
                    let record = T::build(value);
                    assert(<T::Row as FromSqlRow<ST>>::row_decodes(old(self).pending()[0], read)
                        && call_ensures(<T as Queriable<ST>>::build, (read,), record));
                    Some(Ok(record))
                },
                Err(reason) => {
                    self.stopped = true;
                    Some(Err(reason))
                },
            },
        }
    }
}

} // verus!
