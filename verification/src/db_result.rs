use vstd::prelude::*;
use crate::query_builder::bytes_view;
use crate::query_builder::text::{decimal, digit};
use crate::row::DbRow;

verus! {

/// What the backend answered to one statement: how many rows the statement
/// changed, and the rows it returned, each cell as its bytes or NULL.
#[derive(Debug, Clone, PartialEq, Eq)]
pub struct DbResult {
    rows_affected: usize,
    rows: Vec<Vec<Option<Vec<u8>>>>,
}

/// The rows as mathematical values.
pub open spec fn rows_view(rows: Vec<Vec<Option<Vec<u8>>>>) -> Seq<Seq<Option<Seq<u8>>>> {
    Seq::new(rows@.len(), |i: int| Seq::new(rows@[i]@.len(), |j: int| bytes_view(rows@[i]@[j])))
}

/// The cell in the given row and column; NULL where there is no such cell.
pub open spec fn cell_at(cells: Seq<Seq<Option<Seq<u8>>>>, row: int, column: int) -> Option<Seq<u8>> {
    if 0 <= row < cells.len() && 0 <= column < cells[row].len() {
        cells[row][column]
    } else {
        None
    }
}

/// Whether the character is a decimal digit.
pub open spec fn is_digit(c: char) -> bool {
    '0' <= c <= '9'
}

/// The number that a decimal digit writes.
pub open spec fn digit_value(c: char) -> nat {
    (c as nat - '0' as nat) as nat
}

/// The number that a text of decimal digits writes, 0 for the empty text;
/// `None` for a text that holds anything but digits.
pub open spec fn digits_value(text: Seq<char>) -> Option<nat>
    decreases text.len(),
{
    if text.len() == 0 {
        Some(0)
    } else if !is_digit(text.last()) {
        None
    } else {
        match digits_value(text.drop_last()) {
            Some(n) => Some(n * 10 + digit_value(text.last())),
            None => None,
        }
    }
}

/// What the first characters of a text write bounds what the text writes:
/// if they are not all digits, neither is the text, and if they write a
/// number, the text writes none that is smaller.
pub proof fn lemma_digits_prefix(text: Seq<char>, k: int)
    requires
        0 <= k <= text.len(),
    ensures
        digits_value(text.take(k)) is None ==> digits_value(text) is None,
        digits_value(text) matches Some(n) ==> digits_value(text.take(k)) matches Some(m) && m <= n,
    decreases text.len() - k,
{
    if k == text.len() {
        assert(text.take(k) =~= text);
    } else {
        lemma_digits_prefix(text, k + 1);
        let longer = text.take(k + 1);
        assert(longer.drop_last() =~= text.take(k));
    }
}

/// The decimal numeral of a number writes that number.
pub proof fn lemma_decimal_parses(n: nat)
    ensures
        digits_value(decimal(n)) == Some(n),
    decreases n,
{
    let text = decimal(n);
    if n < 10 {
        assert(text.drop_last() =~= Seq::<char>::empty());
        assert(text.last() == digit(n));
        assert(digits_value(text.drop_last()) == Some(0nat));
    } else {
        lemma_decimal_parses(n / 10);
        assert(text.drop_last() =~= decimal(n / 10));
        assert(text.last() == digit(n % 10));
    }
}

/// The number of rows that a command reports to have changed, read from
/// the text that the backend gives: the number that its digits write, and 0
/// where the text is empty, holds anything but digits, or writes a number
/// that does not fit.
pub fn parse_row_count(text: &str) -> (r: usize)
    ensures
        r == match digits_value(text@) {
            Some(n) => if n <= usize::MAX {
                n as usize
            } else {
                0
            },
            None => 0,
        },
{
    broadcast use vstd::string::group_string_axioms;
    let mut n: usize = 0;
    let chars = text.chars();
    for c in it: chars
        invariant
            it.seq() == text@,
            digits_value(text@.take(it.index())) == Some(n as nat),
    {
        proof {
            let longer = text@.take(it.index() + 1);
            assert(longer.drop_last() =~= text@.take(it.index()));
            assert(longer.last() == c);
            lemma_digits_prefix(text@, it.index() + 1);
        }
        if c < '0' || c > '9' {
            return 0;
        }
        let d: usize = (c as u32 - '0' as u32) as usize;
        match n.checked_mul(10) {
            Some(tens) => match tens.checked_add(d) {
                Some(value) => {
                    n = value;
                },
                None => {
                    return 0;
                },
            },
            None => {
                return 0;
            },
        }
    }
    assert(text@.take(text@.len() as int) =~= text@);
    n
}

impl DbResult {
    /// The number of rows that the statement changed.
    pub closed spec fn spec_rows_affected(&self) -> usize {
        self.rows_affected
    }

    /// The rows that the statement returned.
    pub closed spec fn cells(&self) -> Seq<Seq<Option<Seq<u8>>>> {
        rows_view(self.rows)
    }

    pub fn new(rows_affected: usize, rows: Vec<Vec<Option<Vec<u8>>>>) -> (r: Self)
        ensures
            r.spec_rows_affected() == rows_affected,
            r.cells() == rows_view(rows),
    {
        DbResult { rows_affected, rows }
    }

    pub fn rows_affected(&self) -> (r: usize)
        ensures
            r == self.spec_rows_affected(),
    {
        self.rows_affected
    }

    pub fn num_rows(&self) -> (r: usize)
        ensures
            r == self.cells().len(),
    {
        self.rows.len()
    }

    /// The number of cells in the given row; 0 where there is no such row.
    pub fn num_columns(&self, row_idx: usize) -> (r: usize)
        ensures
            r == if row_idx < self.cells().len() {
                self.cells()[row_idx as int].len()
            } else {
                0
            },
    {
        if row_idx < self.rows.len() {
            self.rows[row_idx].len()
        } else {
            0
        }
    }

    /// The bytes of a cell; `None` where it is NULL or there is no such cell.
    pub fn get(&self, row_idx: usize, col_idx: usize) -> (r: Option<&[u8]>)
        ensures
            crate::row::cell_view(r) == cell_at(self.cells(), row_idx as int, col_idx as int),
    {
        if row_idx < self.rows.len() {
            let row = &self.rows[row_idx];
            if col_idx < row.len() {
                match &row[col_idx] {
                    Some(bytes) => Some(bytes.as_slice()),
                    None => None,
                }
            } else {
                None
            }
        } else {
            None
        }
    }

    /// Whether a cell is NULL; true where there is no such cell.
    pub fn is_null(&self, row_idx: usize, col_idx: usize) -> (r: bool)
        ensures
            r == (cell_at(self.cells(), row_idx as int, col_idx as int) is None),
    {
        self.get(row_idx, col_idx).is_none()
    }

    /// The row with the given index, with none of its cells consumed.
    pub fn get_row<'a>(&'a self, idx: usize) -> (r: DbRow<'a>)
        ensures
            r == DbRow::spec_new(self, idx),
    {
        DbRow::new(self, idx)
    }
}

} // verus!
