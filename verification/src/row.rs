use vstd::prelude::*;
use crate::db_result::DbResult;

verus! {

/// The first of the cells that are left; past the last cell every cell reads as NULL.
pub open spec fn first_cell(cells: Seq<Option<Seq<u8>>>) -> Option<Seq<u8>> {
    if cells.len() > 0 {
        cells[0]
    } else {
        None
    }
}

/// The cells that are left once `n` more have been consumed.
pub open spec fn cells_after(cells: Seq<Option<Seq<u8>>>, n: nat) -> Seq<Option<Seq<u8>>> {
    if n <= cells.len() {
        cells.skip(n as int)
    } else {
        Seq::empty()
    }
}

/// The bytes of a cell as a mathematical value.
pub open spec fn cell_view(bytes: Option<&[u8]>) -> Option<Seq<u8>> {
    match bytes {
        Some(b) => Some(b@),
        None => None,
    }
}

/// One row of a result, read cell by cell from left to right.
pub trait Row {
    /// The cells that have not been consumed yet, leftmost first.
    spec fn remaining(&self) -> Seq<Option<Seq<u8>>>;

    /// Consumes the next cell and returns its bytes, `None` where it is NULL.
    fn take(&mut self) -> (r: Option<&[u8]>)
        ensures
            cell_view(r) == first_cell(old(self).remaining()),
            final(self).remaining() == cells_after(old(self).remaining(), 1),
    ;

    /// Whether the next cell is NULL; consumes nothing.
    fn next_is_null(&self) -> (r: bool)
        ensures
            r == (first_cell(self.remaining()) is None),
    ;
}

/// The rows of a result, handed out one by one from first to last.
pub trait Rows {
    type Item<'a>: Row where Self: 'a;

    /// The rows that have not been handed out yet, each as its cells.
    spec fn pending(&self) -> Seq<Seq<Option<Seq<u8>>>>;

    /// Hands out the next row, or `None` when all have been handed out.
    fn next<'a>(&'a mut self) -> (r: Option<Self::Item<'a>>)
        ensures
            old(self).pending().len() == 0 ==> r is None && final(self).pending() == old(self).pending(),
            old(self).pending().len() > 0 ==> r is Some && r->0.remaining() == old(self).pending()[0]
                && final(self).pending() == old(self).pending().skip(1),
    ;
}

/// One row of a result of the backend.
pub struct DbRow<'a> {
    pub db_result: &'a DbResult,
    pub row_idx: usize,
    pub col_idx: usize,
}

/// The cells of a row from the column `from` on.
pub open spec fn cells_from(cells: Seq<Seq<Option<Seq<u8>>>>, row: int, from: int) -> Seq<Option<Seq<u8>>> {
    if 0 <= row < cells.len() && 0 <= from <= cells[row].len() {
        cells[row].skip(from)
    } else {
        Seq::empty()
    }
}

impl<'a> DbRow<'a> {
    pub open spec fn spec_new(db_result: &'a DbResult, row_idx: usize) -> Self {
        DbRow { db_result: db_result, row_idx: row_idx, col_idx: 0 }
    }

    pub fn new(db_result: &'a DbResult, row_idx: usize) -> (r: Self)
        ensures
            r == Self::spec_new(db_result, row_idx),
    {
        DbRow { db_result: db_result, row_idx: row_idx, col_idx: 0 }
    }
}

impl<'a> Row for DbRow<'a> {
    open spec fn remaining(&self) -> Seq<Option<Seq<u8>>> {
        cells_from(self.db_result.cells(), self.row_idx as int, self.col_idx as int)
    }

    fn take(&mut self) -> (r: Option<&[u8]>)
        ensures
            final(self).db_result == old(self).db_result,
            final(self).row_idx == old(self).row_idx,
            final(self).col_idx == if old(self).remaining().len() > 0 {
                old(self).col_idx + 1
            } else {
                old(self).col_idx as int
            },
    {
        let current_idx = self.col_idx;
        if current_idx < self.db_result.num_columns(self.row_idx) {
            self.col_idx += 1;
        }
        let r = self.db_result.get(self.row_idx, current_idx);
        proof {
            let cells = self.db_result.cells();
            if 0 <= self.row_idx < cells.len() && current_idx < cells[self.row_idx as int].len() {
                assert(cells[self.row_idx as int].skip(current_idx as int).skip(1)
                    =~= cells[self.row_idx as int].skip(current_idx + 1));
            }
        }
        r
    }

    fn next_is_null(&self) -> (r: bool) {
        self.db_result.is_null(self.row_idx, self.col_idx)
    }
}

/// The rows of a result of the backend, handed out from first to last.
pub struct DbRows {
    pub db_result: DbResult,
    pub row_idx: usize,
}

impl DbRows {
    pub fn new(db_result: DbResult) -> (r: Self)
        ensures
            r.db_result == db_result,
            r.row_idx == 0,
            r.pending() == db_result.cells(),
    {
        let r = DbRows { db_result: db_result, row_idx: 0 };
        assert(r.db_result.cells().skip(0) =~= r.db_result.cells());
        r
    }
}

impl Rows for DbRows {
    type Item<'a> = DbRow<'a>;

    open spec fn pending(&self) -> Seq<Seq<Option<Seq<u8>>>> {
        if self.row_idx <= self.db_result.cells().len() {
            self.db_result.cells().skip(self.row_idx as int)
        } else {
            Seq::empty()
        }
    }

    fn next<'a>(&'a mut self) -> (r: Option<DbRow<'a>>)
        ensures
            final(self).db_result == old(self).db_result,
            final(self).row_idx == if old(self).row_idx < old(self).db_result.cells().len() {
                old(self).row_idx + 1
            } else {
                old(self).row_idx as int
            },
            r matches Some(row) ==> row == DbRow::spec_new(&old(self).db_result, old(self).row_idx),
    {
        if self.row_idx >= self.db_result.num_rows() {
            None
        } else {
            let idx = self.row_idx;
            self.row_idx += 1;
            let row = self.db_result.get_row(idx);
            proof {
                let cells = self.db_result.cells();
                assert(old(self).pending() == cells.skip(idx as int));
                assert(cells.skip(idx as int)[0] == cells[idx as int]);
                assert(cells.skip(idx as int).skip(1) =~= cells.skip(idx + 1));
                assert(cells[idx as int].skip(0) =~= cells[idx as int]);
                assert(row.remaining() == cells[idx as int]);
            }
            Some(row)
        }
    }
}

} // verus!
