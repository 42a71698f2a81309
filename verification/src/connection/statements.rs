use vstd::prelude::*;
use vstd::string::StringExecFns;
use crate::query_builder::text::{decimal, lemma_decimal_nul_free, nul_free, push_decimal};

verus! {

/// The name of the savepoint that the transaction at the given depth runs under.
pub open spec fn savepoint_name(depth: nat) -> Seq<char> {
    "yaqb_savepoint_"@ + decimal(depth)
}

/// The statement that opens a transaction when `depth` are open already.
pub open spec fn begin_text(depth: nat) -> Seq<char> {
    if depth == 0 {
        "BEGIN"@
    } else {
        "SAVEPOINT "@ + savepoint_name(depth)
    }
}

/// The statement that commits the innermost of `depth` open transactions.
pub open spec fn commit_text(depth: nat) -> Seq<char> {
    if depth <= 1 {
        "COMMIT"@
    } else {
        "RELEASE SAVEPOINT "@ + savepoint_name((depth - 1) as nat)
    }
}

/// The statement that rolls back the innermost of `depth` open transactions.
pub open spec fn rollback_text(depth: nat) -> Seq<char> {
    if depth == 1 {
        "ROLLBACK"@
    } else {
        "ROLLBACK TO SAVEPOINT "@ + savepoint_name((depth - 1) as nat)
    }
}

/// The text of an INSERT statement.
pub open spec fn insert_text(
    table: Seq<char>,
    columns: Seq<char>,
    values: Seq<char>,
    returning: Option<Seq<char>>,
) -> Seq<char> {
    let head = "INSERT INTO "@ + table + " ("@ + columns + ") VALUES "@ + values;
    match returning {
        Some(selection) => head + " RETURNING "@ + selection,
        None => head,
    }
}

fn push_savepoint_name(out: &mut String, depth: u32)
    ensures
        final(out)@ == old(out)@ + savepoint_name(depth as nat),
{
    out.append("yaqb_savepoint_");
    push_decimal(out, depth as usize);
    assert(out@ =~= old(out)@ + savepoint_name(depth as nat));
}

/// The statement that opens a transaction when `depth` are open already.
pub fn begin_statement(depth: u32) -> (r: String)
    ensures
        r@ == begin_text(depth as nat),
{
    if depth == 0 {
        String::from_str("BEGIN")
    } else {
        let mut r = String::from_str("SAVEPOINT ");
        push_savepoint_name(&mut r, depth);
        r
    }
}

/// The statement that commits the innermost of `depth` open transactions.
pub fn commit_statement(depth: u32) -> (r: String)
    requires
        depth > 0,
    ensures
        r@ == commit_text(depth as nat),
{
    if depth <= 1 {
        String::from_str("COMMIT")
    } else {
        let mut r = String::from_str("RELEASE SAVEPOINT ");
        push_savepoint_name(&mut r, depth - 1);
        r
    }
}

/// The statement that rolls back the innermost of `depth` open transactions.
pub fn rollback_statement(depth: u32) -> (r: String)
    requires
        depth > 0,
    ensures
        r@ == rollback_text(depth as nat),
{
    if depth == 1 {
        String::from_str("ROLLBACK")
    } else {
        let mut r = String::from_str("ROLLBACK TO SAVEPOINT ");
        push_savepoint_name(&mut r, depth - 1);
        r
    }
}

/// The text of an INSERT statement.
pub fn insert_statement(table: &str, columns: &str, values: &str, returning: Option<&str>) -> (r: String)
    ensures
        r@ == insert_text(
            table@,
            columns@,
            values@,
            match returning {
                Some(selection) => Some(selection@),
                None => None,
            },
        ),
{
    let mut r = String::from_str("INSERT INTO ");
    r.append(table);
    r.append(" (");
    r.append(columns);
    r.append(") VALUES ");
    r.append(values);
    match returning {
        Some(selection) => {
            r.append(" RETURNING ");
            r.append(selection);
        },
        None => {},
    }
    r
}

/// A transaction is closed under the name that it was opened under. The
/// outermost is opened with `BEGIN` and closed with `COMMIT` or `ROLLBACK`;
/// one that is opened when `depth` are open already is opened as the
/// savepoint that is named by `depth`, and, being the innermost of
/// `depth + 1`, it is closed by releasing that savepoint or by rolling back
/// to it.
pub proof fn lemma_savepoints_pair(depth: nat)
    ensures
        depth == 0 ==> begin_text(depth) == "BEGIN"@ && commit_text(depth + 1) == "COMMIT"@
            && rollback_text(depth + 1) == "ROLLBACK"@,
        depth > 0 ==> begin_text(depth) == "SAVEPOINT "@ + savepoint_name(depth) && commit_text(depth + 1)
            == "RELEASE SAVEPOINT "@ + savepoint_name(depth) && rollback_text(depth + 1)
            == "ROLLBACK TO SAVEPOINT "@ + savepoint_name(depth),
{
}

/// The statements that open and close transactions hold no NUL character.
pub proof fn lemma_texts_nul_free(depth: nat)
    ensures
        nul_free(begin_text(depth)),
        nul_free(commit_text(depth)),
        nul_free(rollback_text(depth)),
{
    reveal_strlit("BEGIN");
    reveal_strlit("COMMIT");
    reveal_strlit("ROLLBACK");
    reveal_strlit("SAVEPOINT ");
    reveal_strlit("RELEASE SAVEPOINT ");
    reveal_strlit("ROLLBACK TO SAVEPOINT ");
    reveal_strlit("yaqb_savepoint_");
    lemma_decimal_nul_free(depth);
    lemma_decimal_nul_free((depth - 1) as nat);
}

} // verus!
