pub mod cursor;
pub mod statements;

use vstd::prelude::*;
use crate::db_result::DbResult;
use crate::expression::{AsExpression, Expression, ExpressionMethods};
use crate::query_dsl::FilterDsl;
use crate::persistable::{Insertable, InsertableColumns};
use crate::query_builder::debug::DebugQueryBuilder;
use crate::query_builder::text::{is_nul_free, nul_free, push_quoted, quoted};
use crate::query_builder::{
    AsQuery, Binds, Output, QueryBuilder, QueryFragment, Token, binds_view, render,
};
use crate::query_source::{Queriable, Table};
use crate::result::{
    ConnectionError, ConnectionResult, Error, QueryResult, TransactionError, TransactionResult,
};
use crate::types::{FromSqlRow, NativeSqlType, ValuesToSql};
use self::statements::{
    begin_statement, begin_text, commit_statement, commit_text, insert_statement, insert_text,
    lemma_texts_nul_free, rollback_statement, rollback_text,
};

pub use self::cursor::Cursor;

use self::cursor::reads_as;

verus! {

/// The link to the backend: it runs one statement at a time and answers
/// with a result or with the backend's message.
pub trait Driver {
    /// Runs the statement `sql` with the bound values `binds`, whose types
    /// are `bind_types` where given and left to the backend where not.
    fn execute(&mut self, sql: &str, binds: &Binds, bind_types: &Option<Vec<u32>>) -> Result<
        DbResult,
        String,
    >;

    /// The backend's message for the last failure.
    fn last_error_message(&self) -> String;
}

/// A statement as it is handed to the driver.
pub ghost struct Sent {
    pub sql: Seq<char>,
    pub binds: Seq<Option<Seq<u8>>>,
    pub bind_types: Option<Seq<u32>>,
}

/// One call of the driver: the statement that was handed to it, and what
/// it answered.
pub ghost struct Exchange {
    pub statement: Sent,
    pub answer: Result<DbResult, String>,
}

/// A statement that is only text, with no bound values.
pub open spec fn statement(sql: Seq<char>) -> Sent {
    Sent { sql, binds: Seq::empty(), bind_types: None }
}

/// A statement with its bound values and their types.
pub open spec fn statement_with(out: Output) -> Sent {
    Sent { sql: out.sql, binds: out.binds, bind_types: Some(out.bind_types) }
}

pub open spec fn types_view(types: Option<Vec<u32>>) -> Option<Seq<u32>> {
    match types {
        Some(t) => Some(t@),
        None => None,
    }
}

/// Whether `first` is how `second` begins.
pub open spec fn is_prefix<A>(first: Seq<A>, second: Seq<A>) -> bool {
    first.len() <= second.len() && second.take(first.len() as int) == first
}

/// Whether `after` is `before` and one more call of the driver `D`, in
/// which `statement` was handed to it and the driver gave the answer.
pub open spec fn exchanged<D: Driver>(before: Seq<Exchange>, after: Seq<Exchange>, statement: Sent) -> bool {
    &&& after.len() == before.len() + 1
    &&& after.drop_last() == before
    &&& after.last().statement == statement
    &&& given_by::<D>(statement, after.last().answer)
}

/// What the driver's answer means to the caller: the result, or an error
/// that carries the backend's message.
pub open spec fn result_for(answer: Result<DbResult, String>) -> QueryResult<DbResult> {
    match answer {
        Ok(result) => Ok(result),
        Err(message) => Err(Error::DatabaseError(message)),
    }
}

/// What the driver's answer means to a caller who asks how many rows a
/// statement changed.
pub open spec fn count_for(answer: Result<DbResult, String>) -> QueryResult<usize> {
    match answer {
        Ok(result) => Ok(result.spec_rows_affected()),
        Err(message) => Err(Error::DatabaseError(message)),
    }
}

/// What closing a transaction gives: the work's value or error if the
/// statement that closes it succeeds, and the statement's error otherwise.
pub open spec fn closing_for<T, E>(outcome: Result<T, E>, answer: Result<DbResult, String>) -> TransactionResult<
    T,
    E,
> {
    match answer {
        Ok(_) => match outcome {
            Ok(value) => Ok(value),
            Err(e) => Err(TransactionError::UserReturnedError(e)),
        },
        Err(message) => Err(TransactionError::CouldntCreateTransaction(Error::DatabaseError(message))),
    }
}

/// Whether `result` is what rendering on its own gives for a rendering that
/// ended with `rendered`: the text, the bound values and their types where it
/// was complete, and the error of an invalid identifier where it was not.
pub open spec fn prepared(rendered: (Output, bool), result: QueryResult<(String, Binds, Vec<u32>)>) -> bool {
    match result {
        Ok((sql, binds, types)) => rendered.1 && rendered.0 == (Output {
            sql: sql@,
            binds: binds_view(binds),
            bind_types: types@,
        }),
        Err(e) => !rendered.1 && e == Error::InvalidCString,
    }
}

/// Whether a rendered statement is not handed to the driver: its rendering
/// was not complete, or its text holds a NUL character.
pub open spec fn refused(rendered: (Output, bool)) -> bool {
    !(rendered.1 && nul_free(rendered.0.sql))
}

/// Whether `after` is what has passed between the connection and the driver
/// once a rendered statement was to be run: nothing more if it was refused,
/// and one more call with that statement otherwise.
pub open spec fn handed_over<D: Driver>(
    before: Seq<Exchange>,
    after: Seq<Exchange>,
    rendered: (Output, bool),
) -> bool {
    if refused(rendered) {
        after == before
    } else {
        exchanged::<D>(before, after, statement_with(rendered.0))
    }
}

/// The INSERT statement for records whose values render as `values`, into
/// the table `T` and the columns `C`, which returns what `returning`
/// renders as, where given. The bound values are those of `values` alone.
pub open spec fn insertion<T: Table, C: InsertableColumns<T>>(
    values: Seq<Token>,
    returning: Option<Seq<Token>>,
) -> (Output, bool) {
    let (placeholders, complete) = render(values, Output::empty());
    let (selection, selected) = match returning {
        Some(tokens) => (Some(render(tokens, Output::empty()).0.sql), render(tokens, Output::empty()).1),
        None => (None, true),
    };
    (
        Output {
            sql: insert_text(T::spec_name(), C::spec_names(), placeholders.sql, selection),
            binds: placeholders.binds,
            bind_types: placeholders.bind_types,
        },
        complete && selected,
    )
}

/// What the caller gets for the driver's answer.
pub fn result_of(answer: Result<DbResult, String>) -> (r: QueryResult<DbResult>)
    ensures
        r == result_for(answer),
{
    match answer {
        Ok(result) => Ok(result),
        Err(message) => Err(Error::DatabaseError(message)),
    }
}

/// The first row that the cursor still holds, if it holds one: `None` when
/// it holds none, the record that is built from the row when the row can
/// be read, and the error of its leftmost cell that cannot be read
/// otherwise, at which the cursor stops.
pub fn first_row<ST, T>(cursor: &mut Cursor<ST, T>) -> (r: QueryResult<Option<T>>) where
    ST: NativeSqlType,
    T: Queriable<ST>,

    ensures
        first_read::<ST, T>(old(cursor).pending(), r),
        final(cursor).rows.db_result == old(cursor).rows.db_result,
        final(cursor).rows.row_idx == if old(cursor).pending().len() > 0 {
            old(cursor).rows.row_idx + 1
        } else {
            old(cursor).rows.row_idx as int
        },
        final(cursor).stopped == (old(cursor).stopped || r is Err),
{
    match cursor.next() {
        None => Ok(None),
        Some(Ok(record)) => Ok(Some(record)),
        Some(Err(e)) => Err(Error::DeserializationError(e)),
    }
}

/// Whether `result` is what reading the first of the rows as a `T` gives.
pub open spec fn first_read<ST: NativeSqlType, T: Queriable<ST>>(
    rows: Seq<Seq<Option<Seq<u8>>>>,
    result: QueryResult<Option<T>>,
) -> bool {
    if rows.len() == 0 {
        result matches Ok(None)
    } else {
        match <T::Row as FromSqlRow<ST>>::row_rejects(rows[0]) {
            Some(e) => result matches Err(Error::DeserializationError(found)) && found == e,
            None => result matches Ok(Some(record)) && reads_as::<ST, T>(rows[0], record),
        }
    }
}

/// A connection: the link to the backend, and how many transactions are open on it.
pub struct Connection<D: Driver> {
    driver: D,
    transaction_depth: u32,
    log: Ghost<Seq<Exchange>>,
}

impl<D: Driver> Connection<D> {
    /// How many transactions are open, the outermost and the savepoints under it.
    pub closed spec fn depth(&self) -> nat {
        self.transaction_depth as nat
    }

    /// What has passed between the connection and the driver: every
    /// statement that was handed to it with the answer it gave, oldest first.
    pub closed spec fn log(&self) -> Seq<Exchange> {
        self.log@
    }

    /// The link to the backend.
    pub closed spec fn spec_driver(&self) -> D {
        self.driver
    }

    /// A connection over an open link, with no transaction open.
    pub fn new(driver: D) -> (r: Self)
        ensures
            r.depth() == 0,
            r.log() == Seq::<Exchange>::empty(),
            r.spec_driver() == driver,
    {
        Connection { driver, transaction_depth: 0, log: Ghost(Seq::empty()) }
    }

    /// What opening a link gave: a connection over the link with no
    /// transaction open, or an error that carries the backend's message.
    pub fn connected(answer: Result<D, String>) -> (r: ConnectionResult<Self>)
        ensures
            established(answer, r),
    {
        match answer {
            Ok(driver) => Ok(Connection::new(driver)),
            Err(message) => Err(ConnectionError::BadConnection(message)),
        }
    }

    /// Opens a connection to the backend at `database_url`, the link being
    /// opened by `connect`. An address that holds a NUL character is
    /// rejected and `connect` is not called.
    pub fn establish<F>(database_url: &str, connect: F) -> (r: ConnectionResult<Self>) where
        F: FnOnce(&str) -> Result<D, String>,

        requires
            call_requires(connect, (database_url,)),
        ensures
            !nul_free(database_url@) ==> r matches Err(ConnectionError::InvalidCString),
            nul_free(database_url@) ==> exists|answer: Result<D, String>|
                call_ensures(connect, (database_url,), answer) && established(answer, r),
    {
        if !is_nul_free(database_url) {
            return Err(ConnectionError::InvalidCString);
        }
        let answer = connect(database_url);
        Self::connected(answer)
    }

    /// How many transactions are open.
    pub fn transaction_depth(&self) -> (r: u32)
        ensures
            r == self.depth(),
    {
        self.transaction_depth
    }

    /// The link to the backend.
    pub fn driver(&self) -> (r: &D)
        ensures
            *r == self.spec_driver(),
    {
        &self.driver
    }

    /// The backend's message for the last failure, as the driver gives it.
    pub fn last_error_message(&self) -> (r: String)
        ensures
            call_ensures(<D as Driver>::last_error_message, (&self.spec_driver(),), r),
    {
        self.driver.last_error_message()
    }

    /// The identifier as it is written in a statement: between double quotes,
    /// its own double quotes doubled. An identifier that holds a NUL
    /// character cannot be written.
    pub fn escape_identifier(&self, identifier: &str) -> (r: QueryResult<String>)
        ensures
            match r {
                Ok(escaped) => nul_free(identifier@) && escaped@ == quoted(identifier@),
                Err(e) => !nul_free(identifier@) && e == Error::InvalidCString,
            },
    {
        if is_nul_free(identifier) {
            let mut escaped = String::new();
            push_quoted(&mut escaped, identifier);
            assert(escaped@ =~= quoted(identifier@));
            Ok(escaped)
        } else {
            Err(Error::InvalidCString)
        }
    }

    /// Hands a statement to the driver, unless its text holds a NUL
    /// character, and returns what the driver's answer means.
    pub fn exec_sql_params(
        &mut self,
        query: &str,
        param_data: &Binds,
        param_types: &Option<Vec<u32>>,
    ) -> (r: QueryResult<DbResult>)
        ensures
            final(self).depth() == old(self).depth(),
            !nul_free(query@) ==> final(self).log() == old(self).log() && r == Err::<DbResult, Error>(
                Error::InvalidCString,
            ),
            nul_free(query@) ==> exchanged::<D>(
                old(self).log(),
                final(self).log(),
                (Sent { sql: query@, binds: binds_view(*param_data), bind_types: types_view(*param_types) }),
            ) && r == result_for(final(self).log().last().answer),
    {
        if !is_nul_free(query) {
            return Err(Error::InvalidCString);
        }
        let answer = self.driver.execute(query, param_data, param_types);
        proof {
            let handed = Sent {
                sql: query@,
                binds: binds_view(*param_data),
                bind_types: types_view(*param_types),
            };
            assert forall|holds: spec_fn(Result<DbResult, String>) -> bool| #[trigger]
                holds_of_answers::<D>(handed, holds) implies holds(answer) by {}
            let sent = Sent {
                sql: query@,
                binds: binds_view(*param_data),
                bind_types: types_view(*param_types),
            };
            self.log@ = self.log@.push(Exchange { statement: sent, answer: answer });
            assert(self.log@.drop_last() =~= old(self).log());
        }
        result_of(answer)
    }

    fn execute_inner(&mut self, query: &str) -> (r: QueryResult<DbResult>)
        ensures
            final(self).depth() == old(self).depth(),
            !nul_free(query@) ==> final(self).log() == old(self).log() && r == Err::<DbResult, Error>(
                Error::InvalidCString,
            ),
            nul_free(query@) ==> exchanged::<D>(old(self).log(), final(self).log(), statement(query@)) && r
                == result_for(final(self).log().last().answer),
    {
        let params: Binds = Vec::new();
        assert(binds_view(params) =~= Seq::empty());
        self.exec_sql_params(query, &params, &None)
    }

    fn exec_prepared(&mut self, sql: &str, params: &Binds, types: Vec<u32>) -> (r: QueryResult<DbResult>)
        ensures
            final(self).depth() == old(self).depth(),
            handed_over::<D>(
                old(self).log(),
                final(self).log(),
                (Output { sql: sql@, binds: binds_view(*params), bind_types: types@ }, true),
            ),
            !nul_free(sql@) ==> r == Err::<DbResult, Error>(Error::InvalidCString),
            nul_free(sql@) ==> r == result_for(final(self).log().last().answer),
    {
        self.exec_sql_params(sql, params, &Some(types))
    }

    /// Runs a statement that is only text, and returns how many rows it changed.
    pub fn execute(&mut self, query: &str) -> (r: QueryResult<usize>)
        ensures
            final(self).depth() == old(self).depth(),
            !nul_free(query@) ==> final(self).log() == old(self).log() && r == Err::<usize, Error>(
                Error::InvalidCString,
            ),
            nul_free(query@) ==> exchanged::<D>(old(self).log(), final(self).log(), statement(query@)) && r
                == count_for(final(self).log().last().answer),
    {
        match self.execute_inner(query) {
            Ok(result) => Ok(result.rows_affected()),
            Err(e) => Err(e),
        }
    }

    fn change_transaction_depth(&mut self, by: i32, query: QueryResult<usize>) -> (r: QueryResult<usize>)
        requires
            0 <= old(self).depth() + by <= u32::MAX,
        ensures
            r == query,
            final(self).log() == old(self).log(),
            final(self).depth() == if query is Ok {
                old(self).depth() + by
            } else {
                old(self).depth() as int
            },
    {
        if query.is_ok() {
            self.transaction_depth = (self.transaction_depth as i64 + by as i64) as u32;
        }
        query
    }

    /// Opens a transaction: the outermost with `BEGIN`, one under it with a
    /// savepoint named by the depth. The depth grows if and only if the
    /// statement succeeds.
    pub fn begin_transaction(&mut self) -> (r: QueryResult<usize>)
        requires
            old(self).depth() < u32::MAX,
        ensures
            exchanged::<D>(old(self).log(), final(self).log(), statement(begin_text(old(self).depth()))),
            r == count_for(final(self).log().last().answer),
            final(self).depth() == if r is Ok {
                old(self).depth() + 1
            } else {
                old(self).depth()
            },
    {
        let text = begin_statement(self.transaction_depth);
        proof {
            lemma_texts_nul_free(self.depth());
        }
        let query = self.execute(text.as_str());
        self.change_transaction_depth(1, query)
    }

    /// Rolls back the innermost open transaction: the outermost with
    /// `ROLLBACK`, one under it back to its savepoint. The depth shrinks if
    /// and only if the statement succeeds.
    pub fn rollback_transaction(&mut self) -> (r: QueryResult<usize>)
        requires
            old(self).depth() > 0,
        ensures
            exchanged::<D>(old(self).log(), final(self).log(), statement(rollback_text(old(self).depth()))),
            r == count_for(final(self).log().last().answer),
            final(self).depth() == if r is Ok {
                old(self).depth() - 1
            } else {
                old(self).depth() as int
            },
    {
        let text = rollback_statement(self.transaction_depth);
        proof {
            lemma_texts_nul_free(self.depth());
        }
        let query = self.execute(text.as_str());
        self.change_transaction_depth(-1, query)
    }

    /// Commits the innermost open transaction: the outermost with `COMMIT`,
    /// one under it by releasing its savepoint. The depth shrinks if and only
    /// if the statement succeeds.
    pub fn commit_transaction(&mut self) -> (r: QueryResult<usize>)
        requires
            old(self).depth() > 0,
        ensures
            exchanged::<D>(old(self).log(), final(self).log(), statement(commit_text(old(self).depth()))),
            r == count_for(final(self).log().last().answer),
            final(self).depth() == if r is Ok {
                old(self).depth() - 1
            } else {
                old(self).depth() as int
            },
    {
        let text = commit_statement(self.transaction_depth);
        proof {
            lemma_texts_nul_free(self.depth());
        }
        let query = self.execute(text.as_str());
        self.change_transaction_depth(-1, query)
    }

    /// Opens the transaction that a test runs in, on a connection that has none open.
    pub fn begin_test_transaction(&mut self) -> (r: QueryResult<usize>)
        requires
            old(self).depth() == 0,
        ensures
            exchanged::<D>(old(self).log(), final(self).log(), statement("BEGIN"@)),
            r == count_for(final(self).log().last().answer),
            final(self).depth() == if r is Ok {
                1nat
            } else {
                0nat
            },
    {
        self.begin_transaction()
    }

    /// Closes the innermost open transaction after the work in it ended with
    /// `outcome`: commits if the work succeeded and rolls back if it failed.
    /// The work's value comes back if the commit succeeds, the work's error if
    /// the rollback succeeds, and the statement's error otherwise.
    pub fn finish_transaction<T, E>(&mut self, outcome: Result<T, E>) -> (r: TransactionResult<T, E>)
        requires
            old(self).depth() > 0,
        ensures
            exchanged::<D>(
                old(self).log(),
                final(self).log(),
                statement(
                    if outcome is Ok {
                        commit_text(old(self).depth())
                    } else {
                        rollback_text(old(self).depth())
                    },
                ),
            ),
            r == closing_for(outcome, final(self).log().last().answer),
            final(self).depth() == if final(self).log().last().answer is Ok {
                old(self).depth() - 1
            } else {
                old(self).depth() as int
            },
    {
        match outcome {
            Ok(value) => match self.commit_transaction() {
                Ok(_) => Ok(value),
                Err(e) => Err(TransactionError::CouldntCreateTransaction(e)),
            },
            Err(e) => match self.rollback_transaction() {
                Ok(_) => Err(TransactionError::UserReturnedError(e)),
                Err(e) => Err(TransactionError::CouldntCreateTransaction(e)),
            },
        }
    }

    /// Closes the innermost open transaction after the work of a test in it
    /// ended with `outcome`: rolls back, whether the work succeeded or failed.
    /// The work's value or error comes back if the rollback succeeds, and
    /// the statement's error otherwise.
    pub fn finish_test_transaction<T, E>(&mut self, outcome: Result<T, E>) -> (r: TransactionResult<T, E>)
        requires
            old(self).depth() > 0,
        ensures
            exchanged::<D>(old(self).log(), final(self).log(), statement(rollback_text(old(self).depth()))),
            r == closing_for(outcome, final(self).log().last().answer),
            final(self).depth() == if final(self).log().last().answer is Ok {
                old(self).depth() - 1
            } else {
                old(self).depth() as int
            },
    {
        match self.rollback_transaction() {
            Ok(_) => match outcome {
                Ok(value) => Ok(value),
                Err(e) => Err(TransactionError::UserReturnedError(e)),
            },
            Err(e) => Err(TransactionError::CouldntCreateTransaction(e)),
        }
    }

    /// Runs `f` inside a transaction: opens one, runs `f`, then commits if `f`
    /// succeeded and rolls back if it failed. `f` gets the connection to work
    /// with; it may open transactions of its own, and must not close one
    /// that it did not open. If the transaction cannot be opened, `f` is not
    /// run and nothing more is handed to the driver.
    pub fn transaction<T, E, F>(&mut self, f: F) -> (r: TransactionResult<T, E>) where
        F: FnOnce(&mut Connection<D>) -> Result<T, E>,

        requires
            old(self).depth() < u32::MAX,
            forall|c: &mut Connection<D>|
                c.depth() == old(self).depth() + 1 ==> #[trigger] call_requires(f, (c,)),
            forall|c: &mut Connection<D>, outcome: Result<T, E>| #[trigger]
                call_ensures(f, (c,), outcome) ==> final(c).depth() >= c.depth() && is_prefix(
                    c.log(),
                    final(c).log(),
                ),
        ensures
            final(self).depth() >= old(self).depth(),
            opened(old(self).log(), final(self).log(), old(self).depth()),
            final(self).log()[old(self).log().len() as int].answer is Err ==> exchanged::<D>(
                old(self).log(),
                final(self).log(),
                statement(begin_text(old(self).depth())),
            ) && final(self).depth() == old(self).depth() && not_opened(r, final(self).log().last()),
            final(self).log()[old(self).log().len() as int].answer is Ok ==> final(self).log().len()
                >= old(self).log().len() + 2 && closed_by(r, final(self).log().last(), final(self).depth()),
            final(self).log()[old(self).log().len() as int].answer is Ok ==> exists|
                c: &mut Connection<D>,
                o: Result<T, E>,
            | #[trigger]
                call_ensures(f, (c,), o) && c.depth() == old(self).depth() + 1 && c.log() == old(
                    self,
                ).log().push(final(self).log()[old(self).log().len() as int])
                    && final(self).log().drop_last() == final(c).log() && final(self).log().last().statement
                    == statement(
                    if o is Ok {
                            commit_text(final(c).depth())
                        } else {
                            rollback_text(final(c).depth())
                        },
                ) && final(self).depth() == (if final(self).log().last().answer is Ok {
                    final(c).depth() - 1
                } else {
                    final(c).depth() as int
                }) && r == closing_for(o, final(self).log().last().answer),
    {
        let ghost before = self.log();
        match self.begin_transaction() {
            Ok(_) => {},
            Err(e) => {
                proof {
                    assert(self.log().take(before.len() as int) =~= self.log().drop_last());
                }
                return Err(TransactionError::CouldntCreateTransaction(e));
            },
        }
        let ghost begun = self.log();
        let outcome = f(self);
        let ghost worked = self.log();
        let r = self.finish_transaction(outcome);
        proof {
            let after = self.log();
            assert(begun =~= before.push(begun.last()));
            assert(after.drop_last() =~= worked);
            assert(after =~= worked.push(after.last()));
            assert(begun.take(before.len() as int) =~= begun.drop_last());
            lemma_prefix_push(begun, worked, after.last());
            lemma_prefix_transitive(before, begun, after);
            assert(after[before.len() as int] == after.take(begun.len() as int)[before.len() as int]);
        }
        r
    }

    /// Runs `f` inside a transaction that is rolled back whatever `f`
    /// returns, so that nothing `f` did stays: opens one, runs `f`, then rolls
    /// back. `f` gets the connection to work with, under the same terms as in
    /// `transaction`.
    pub fn test_transaction<T, E, F>(&mut self, f: F) -> (r: TransactionResult<T, E>) where
        F: FnOnce(&mut Connection<D>) -> Result<T, E>,

        requires
            old(self).depth() < u32::MAX,
            forall|c: &mut Connection<D>|
                c.depth() == old(self).depth() + 1 ==> #[trigger] call_requires(f, (c,)),
            forall|c: &mut Connection<D>, outcome: Result<T, E>| #[trigger]
                call_ensures(f, (c,), outcome) ==> final(c).depth() >= c.depth() && is_prefix(
                    c.log(),
                    final(c).log(),
                ),
        ensures
            final(self).depth() >= old(self).depth(),
            opened(old(self).log(), final(self).log(), old(self).depth()),
            final(self).log()[old(self).log().len() as int].answer is Err ==> exchanged::<D>(
                old(self).log(),
                final(self).log(),
                statement(begin_text(old(self).depth())),
            ) && final(self).depth() == old(self).depth() && not_opened(r, final(self).log().last()),
            final(self).log()[old(self).log().len() as int].answer is Ok ==> final(self).log().len()
                >= old(self).log().len() + 2 && rolled_back(r, final(self).log().last(), final(self).depth()),
            final(self).log()[old(self).log().len() as int].answer is Ok ==> exists|
                c: &mut Connection<D>,
                o: Result<T, E>,
            | #[trigger]
                call_ensures(f, (c,), o) && c.depth() == old(self).depth() + 1 && c.log() == old(
                    self,
                ).log().push(final(self).log()[old(self).log().len() as int])
                    && final(self).log().drop_last() == final(c).log() && final(self).log().last().statement
                    == statement(
                    rollback_text(final(c).depth()),
                ) && final(self).depth() == (if final(self).log().last().answer is Ok {
                    final(c).depth() - 1
                } else {
                    final(c).depth() as int
                }) && r == closing_for(o, final(self).log().last().answer),
    {
        let ghost before = self.log();
        match self.begin_transaction() {
            Ok(_) => {},
            Err(e) => {
                proof {
                    assert(self.log().take(before.len() as int) =~= self.log().drop_last());
                }
                return Err(TransactionError::CouldntCreateTransaction(e));
            },
        }
        let ghost begun = self.log();
        let outcome = f(self);
        let ghost worked = self.log();
        let r = self.finish_test_transaction(outcome);
        proof {
            let after = self.log();
            assert(begun =~= before.push(begun.last()));
            assert(after.drop_last() =~= worked);
            assert(after =~= worked.push(after.last()));
            assert(begun.take(before.len() as int) =~= begun.drop_last());
            lemma_prefix_push(begun, worked, after.last());
            lemma_prefix_transitive(before, begun, after);
            assert(after[before.len() as int] == after.take(begun.len() as int)[before.len() as int]);
        }
        r
    }

    /// Renders a fragment on its own: its text, its bound values and their types.
    pub fn prepare_query<T: QueryFragment>(&self, source: &T) -> (r: QueryResult<(String, Binds, Vec<u32>)>)
        ensures
            prepared(render(source.tokens(), Output::empty()), r),
    {
        let mut query_builder = DebugQueryBuilder::new();
        source.to_sql(&mut query_builder)?;
        Ok((query_builder.sql, query_builder.binds, query_builder.bind_types))
    }

    /// Renders an expression on its own: its text, its bound values and their types.
    pub fn prepare_expression<T: Expression>(&self, source: &T) -> (r: QueryResult<
        (String, Binds, Vec<u32>),
    >)
        ensures
            prepared(render(source.tokens(), Output::empty()), r),
    {
        let mut query_builder = DebugQueryBuilder::new();
        source.to_sql(&mut query_builder)?;
        Ok((query_builder.sql, query_builder.binds, query_builder.bind_types))
    }

    /// Renders the values of the records of an INSERT statement: the
    /// expression that the records give for their values, on its own.
    pub fn placeholders_for_insert<T, U>(&self, records: U) -> (r: QueryResult<(String, Binds, Vec<u32>)>) where
        T: Table,
        U: Insertable<T>,

        ensures
            exists|values: U::Values| #[trigger]
                call_ensures(<U as Insertable<T>>::values, (records,), values) && prepared(
                    render(values.tokens(), Output::empty()),
                    r,
                ),
    {
        let values = records.values();
        let r = self.prepare_expression(&values);
        assert(call_ensures(<U as Insertable<T>>::values, (records,), values) && prepared(
            render(values.tokens(), Output::empty()),
            r,
        ));
        r
    }

    /// Runs a fragment as a statement, and returns how many rows it changed.
    pub fn execute_returning_count<T>(&mut self, source: &T) -> (r: QueryResult<usize>) where
        T: QueryFragment,

        ensures
            final(self).depth() == old(self).depth(),
            handed_over::<D>(old(self).log(), final(self).log(), render(source.tokens(), Output::empty())),
            r == if refused(render(source.tokens(), Output::empty())) {
                Err::<usize, Error>(Error::InvalidCString)
            } else {
                count_for(final(self).log().last().answer)
            },
    {
        let (sql, params, param_types) = self.prepare_query(source)?;
        match self.exec_prepared(sql.as_str(), &params, param_types) {
            Ok(result) => Ok(result.rows_affected()),
            Err(e) => Err(e),
        }
    }

    /// Runs a query, and returns a cursor over the rows of the answer.
    pub fn query_all<T, U>(&mut self, source: T) -> (r: QueryResult<Cursor<T::SqlType, U>>) where
        T: AsQuery,
        U: Queriable<T::SqlType>,

        ensures
            final(self).depth() == old(self).depth(),
            handed_over::<D>(
                old(self).log(),
                final(self).log(),
                render(source.spec_as_query().tokens(), Output::empty()),
            ),
            opens_cursor(
                refused(render(source.spec_as_query().tokens(), Output::empty())),
                final(self).log(),
                r,
            ),
    {
        let query = source.as_query();
        let (sql, params, types) = self.prepare_query(&query)?;
        match self.exec_prepared(sql.as_str(), &params, types) {
            Ok(result) => Ok(Cursor::new(result)),
            Err(e) => Err(e),
        }
    }

    /// Runs a query, and returns its first row, if it has one.
    pub fn query_one<T, U>(&mut self, source: T) -> (r: QueryResult<Option<U>>) where
        T: AsQuery,
        U: Queriable<T::SqlType>,

        ensures
            final(self).depth() == old(self).depth(),
            handed_over::<D>(
                old(self).log(),
                final(self).log(),
                render(source.spec_as_query().tokens(), Output::empty()),
            ),
            if refused(render(source.spec_as_query().tokens(), Output::empty())) {
                r matches Err(Error::InvalidCString)
            } else {
                match final(self).log().last().answer {
                    Ok(result) => first_read::<T::SqlType, U>(result.cells(), r),
                    Err(message) => r matches Err(Error::DatabaseError(found)) && found == message,
                }
            },
    {
        let mut cursor = self.query_all::<T, U>(source)?;
        first_row(&mut cursor)
    }

    /// Runs the query for the row of a table whose primary key is `id`, and
    /// returns that row, if there is one.
    pub fn find<T, U, PK>(&mut self, source: T, id: PK) -> (r: QueryResult<Option<U>>) where
        T: Table + FilterDsl<crate::expression::predicates::Eq<T::PrimaryKey, PK::Expression>>,
        <T as FilterDsl<crate::expression::predicates::Eq<T::PrimaryKey, PK::Expression>>>::Output: AsQuery,
        U: Queriable<
            <<T as FilterDsl<
                crate::expression::predicates::Eq<T::PrimaryKey, PK::Expression>,
            >>::Output as AsQuery>::SqlType,
        >,
        PK: AsExpression<<T::PrimaryKey as Expression>::SqlType>,

        ensures
            final(self).depth() == old(self).depth(),
            handed_over::<D>(
                old(self).log(),
                final(self).log(),
                render(found_by(source, id).spec_as_query().tokens(), Output::empty()),
            ),
            if refused(render(found_by(source, id).spec_as_query().tokens(), Output::empty())) {
                r matches Err(Error::InvalidCString)
            } else {
                match final(self).log().last().answer {
                    Ok(result) => first_read::<
                        <<T as FilterDsl<
                            crate::expression::predicates::Eq<T::PrimaryKey, PK::Expression>,
                        >>::Output as AsQuery>::SqlType,
                        U,
                    >(result.cells(), r),
                    Err(message) => r matches Err(Error::DatabaseError(found)) && found == message,
                }
            },
    {
        let pk = source.primary_key();
        self.query_one(source.filter(pk.eq(id)))
    }

    /// Runs a query that is given as text, and returns a cursor over the
    /// rows of the answer.
    pub fn query_sql<T, U>(&mut self, query: &str) -> (r: QueryResult<Cursor<T, U>>) where
        T: NativeSqlType,
        U: Queriable<T>,

        ensures
            final(self).depth() == old(self).depth(),
            !nul_free(query@) ==> final(self).log() == old(self).log(),
            nul_free(query@) ==> exchanged::<D>(old(self).log(), final(self).log(), statement(query@)),
            opens_cursor(!nul_free(query@), final(self).log(), r),
    {
        let result = self.execute_inner(query)?;
        Ok(Cursor::new(result))
    }

    /// Runs a query that is given as text with placeholders, whose values are
    /// `params` and whose types are left to the backend, and returns a cursor
    /// over the rows of the answer.
    pub fn query_sql_params<T, U, PT, P>(&mut self, query: &str, params: &P) -> (r: QueryResult<
        Cursor<T, U>,
    >) where T: NativeSqlType, U: Queriable<T>, PT: NativeSqlType, P: ValuesToSql<PT>
        ensures
            final(self).depth() == old(self).depth(),
            !nul_free(query@) ==> final(self).log() == old(self).log(),
            nul_free(query@) ==> exchanged::<D>(
                old(self).log(),
                final(self).log(),
                (Sent { sql: query@, binds: params.encoded_values(), bind_types: None }),
            ),
            opens_cursor(!nul_free(query@), final(self).log(), r),
    {
        let param_data = params.values_to_sql();
        let db_result = self.exec_sql_params(query, &param_data, &None)?;
        Ok(Cursor::new(db_result))
    }

    /// Inserts into the table `T`, into the columns `C`, the records whose
    /// values `values` renders, and returns a cursor over the rows as they
    /// were stored, with all the table's columns.
    pub fn insert_values<T, C, V, Out>(&mut self, columns: &C, values: &V) -> (r: QueryResult<
        Cursor<<T::AllColumns as Expression>::SqlType, Out>,
    >) where
        T: Table,
        C: InsertableColumns<T>,
        V: Expression,
        Out: Queriable<<T::AllColumns as Expression>::SqlType>,

        ensures
            final(self).depth() == old(self).depth(),
            handed_over::<D>(
                old(self).log(),
                final(self).log(),
                insertion::<T, C>(values.tokens(), Some(T::spec_all_columns().tokens())),
            ),
            opens_cursor(
                refused(insertion::<T, C>(values.tokens(), Some(T::spec_all_columns().tokens()))),
                final(self).log(),
                r,
            ),
    {
        let (param_placeholders, params, param_types) = self.prepare_expression(values)?;
        let all_columns = T::all_columns();
        let (returning, _, _) = self.prepare_expression(&all_columns)?;
        let names = columns.names();
        let sql = insert_statement(
            T::name(),
            names.as_str(),
            param_placeholders.as_str(),
            Some(returning.as_str()),
        );
        match self.exec_prepared(sql.as_str(), &params, param_types) {
            Ok(result) => Ok(Cursor::new(result)),
            Err(e) => Err(e),
        }
    }

    /// Inserts into the table `T`, into the columns `C`, the records whose
    /// values `values` renders, and returns how many rows were stored.
    pub fn insert_values_returning_count<T, C, V>(&mut self, columns: &C, values: &V) -> (r: QueryResult<
        usize,
    >) where T: Table, C: InsertableColumns<T>, V: Expression
        ensures
            final(self).depth() == old(self).depth(),
            handed_over::<D>(
                old(self).log(),
                final(self).log(),
                insertion::<T, C>(values.tokens(), None),
            ),
            r == if refused(insertion::<T, C>(values.tokens(), None)) {
                Err::<usize, Error>(Error::InvalidCString)
            } else {
                count_for(final(self).log().last().answer)
            },
    {
        let (param_placeholders, params, param_types) = self.prepare_expression(values)?;
        let names = columns.names();
        let sql = insert_statement(T::name(), names.as_str(), param_placeholders.as_str(), None);
        match self.exec_prepared(sql.as_str(), &params, param_types) {
            Ok(result) => Ok(result.rows_affected()),
            Err(e) => Err(e),
        }
    }

    /// Inserts records into a table, and returns a cursor over the rows as
    /// they were stored, with all the table's columns. The statement is the
    /// one that `insert_values` hands over for the values that the records give.
    pub fn insert<T, U, Out>(&mut self, _source: &T, records: U) -> (r: QueryResult<
        Cursor<<T::AllColumns as Expression>::SqlType, Out>,
    >) where T: Table, U: Insertable<T>, Out: Queriable<<T::AllColumns as Expression>::SqlType>
        ensures
            final(self).depth() == old(self).depth(),
            exists|values: U::Values| #[trigger]
                call_ensures(<U as Insertable<T>>::values, (records,), values) && handed_over::<D>(
                    old(self).log(),
                    final(self).log(),
                    insertion::<T, U::Columns>(values.tokens(), Some(T::spec_all_columns().tokens())),
                ) && opens_cursor(
                    refused(
                        insertion::<T, U::Columns>(values.tokens(), Some(T::spec_all_columns().tokens())),
                    ),
                    final(self).log(),
                    r,
                ),
    {
        let values = records.values();
        let columns = U::columns();
        let r = self.insert_values::<T, U::Columns, U::Values, Out>(&columns, &values);
        assert(call_ensures(<U as Insertable<T>>::values, (records,), values) && handed_over::<D>(
            old(self).log(),
            self.log(),
            insertion::<T, U::Columns>(values.tokens(), Some(T::spec_all_columns().tokens())),
        ) && opens_cursor(
            refused(insertion::<T, U::Columns>(values.tokens(), Some(T::spec_all_columns().tokens()))),
            self.log(),
            r,
        ));
        r
    }

    /// Inserts records into a table, and returns how many rows were stored.
    /// The statement is the one that `insert_values_returning_count` hands
    /// over for the values that the records give.
    pub fn insert_returning_count<T, U>(&mut self, _source: &T, records: U) -> (r: QueryResult<usize>) where
        T: Table,
        U: Insertable<T>,

        ensures
            final(self).depth() == old(self).depth(),
            exists|values: U::Values| #[trigger]
                call_ensures(<U as Insertable<T>>::values, (records,), values) && handed_over::<D>(
                    old(self).log(),
                    final(self).log(),
                    insertion::<T, U::Columns>(values.tokens(), None),
                ) && r == if refused(insertion::<T, U::Columns>(values.tokens(), None)) {
                    Err::<usize, Error>(Error::InvalidCString)
                } else {
                    count_for(final(self).log().last().answer)
                },
    {
        let values = records.values();
        let columns = U::columns();
        let r = self.insert_values_returning_count::<T, U::Columns, U::Values>(&columns, &values);
        assert(call_ensures(<U as Insertable<T>>::values, (records,), values) && handed_over::<D>(
            old(self).log(),
            self.log(),
            insertion::<T, U::Columns>(values.tokens(), None),
        ) && r == if refused(insertion::<T, U::Columns>(values.tokens(), None)) {
            Err::<usize, Error>(Error::InvalidCString)
        } else {
            count_for(self.log().last().answer)
        });
        r
    }
}

/// The rows of the table `source` whose primary key is `id`.
pub open spec fn found_by<T, PK>(source: T, id: PK) -> <T as FilterDsl<
    crate::expression::predicates::Eq<T::PrimaryKey, PK::Expression>,
>>::Output where
    T: Table + FilterDsl<crate::expression::predicates::Eq<T::PrimaryKey, PK::Expression>>,
    PK: AsExpression<<T::PrimaryKey as Expression>::SqlType>,
{
    source.spec_filter(
        crate::expression::predicates::Eq {
            left: source.spec_primary_key(),
            right: id.spec_as_expression(),
        },
    )
}

/// Whether `result` is what opening a link with the answer `answer` gives.
pub open spec fn established<D: Driver>(answer: Result<D, String>, result: ConnectionResult<Connection<D>>) -> bool {
    match answer {
        Ok(driver) => result matches Ok(connection) && connection.depth() == 0 && connection.log()
            == Seq::<Exchange>::empty() && connection.spec_driver() == driver,
        Err(message) => result matches Err(ConnectionError::BadConnection(found)) && found == message,
    }
}

/// Whether `result` is what a query gives that was refused, or else was
/// answered last in `log`: the error of a refused statement, a cursor over
/// the rows of the answer, or an error that carries the backend's message.
pub open spec fn opens_cursor<ST, T>(
    was_refused: bool,
    log: Seq<Exchange>,
    result: QueryResult<Cursor<ST, T>>,
) -> bool {
    if was_refused {
        result matches Err(Error::InvalidCString)
    } else {
        match log.last().answer {
            Ok(answer) => result matches Ok(cursor) && cursor.pending() == answer.cells(),
            Err(message) => result matches Err(Error::DatabaseError(found)) && found == message,
        }
    }
}

/// Whether `after` is `before`, then the call that opens a transaction when
/// `depth` are open already, then whatever followed.
pub open spec fn opened(before: Seq<Exchange>, after: Seq<Exchange>, depth: nat) -> bool {
    &&& is_prefix(before, after)
    &&& after.len() > before.len()
    &&& after[before.len() as int].statement == statement(begin_text(depth))
}

/// Whether `answer` is an answer of the driver `D` to the statement:
/// whatever holds of every answer that the driver can give to it holds of
/// `answer`.
pub open spec fn given_by<D: Driver>(statement: Sent, answer: Result<DbResult, String>) -> bool {
    forall|holds: spec_fn(Result<DbResult, String>) -> bool| #[trigger]
        holds_of_answers::<D>(statement, holds) ==> holds(answer)
}

/// Whether `holds` is true of every answer that the driver `D` can give to
/// the statement.
pub open spec fn holds_of_answers<D: Driver>(
    statement: Sent,
    holds: spec_fn(Result<DbResult, String>) -> bool,
) -> bool {
    forall|
        driver: &mut D,
        sql: &str,
        binds: &Binds,
        bind_types: &Option<Vec<u32>>,
        answer: Result<DbResult, String>,
    | #[trigger]
        call_ensures(<D as Driver>::execute, (driver, sql, binds, bind_types), answer) && statement == (Sent {
            sql: sql@,
            binds: binds_view(*binds),
            bind_types: types_view(*bind_types),
        }) ==> holds(answer)
}

/// Whether `result` is what a transaction gives that could not be opened
/// in the call `last`: the error of the statement that was to open it.
pub open spec fn not_opened<T, E>(result: TransactionResult<T, E>, last: Exchange) -> bool {
    result matches Err(TransactionError::CouldntCreateTransaction(e)) && last.answer matches Err(message)
        && e == Error::DatabaseError(message)
}

/// Whether `last` is the call that closed a transaction with the result
/// `result`, leaving `depth` open: a commit if the work succeeded and a
/// rollback if it failed, named by the depth before it.
pub open spec fn closed_by<T, E>(result: TransactionResult<T, E>, last: Exchange, depth: nat) -> bool {
    match result {
        Ok(_) => last.answer is Ok && last.statement == statement(commit_text(depth + 1)),
        Err(TransactionError::UserReturnedError(_)) => last.answer is Ok && last.statement == statement(
            rollback_text(depth + 1),
        ),
        Err(TransactionError::CouldntCreateTransaction(e)) => last.answer matches Err(message) && e
            == Error::DatabaseError(message) && (last.statement == statement(commit_text(depth))
            || last.statement == statement(rollback_text(depth))),
    }
}

/// Whether `last` is the call that rolled back the transaction of a test
/// with the result `result`, leaving `depth` open.
pub open spec fn rolled_back<T, E>(result: TransactionResult<T, E>, last: Exchange, depth: nat) -> bool {
    match result {
        Err(TransactionError::CouldntCreateTransaction(e)) => last.answer matches Err(message) && e
            == Error::DatabaseError(message) && last.statement == statement(rollback_text(depth)),
        _ => last.answer is Ok && last.statement == statement(rollback_text(depth + 1)),
    }
}

/// What begins a sequence also begins the sequence with one more element.
pub proof fn lemma_prefix_push<A>(first: Seq<A>, second: Seq<A>, last: A)
    requires
        is_prefix(first, second),
    ensures
        is_prefix(first, second.push(last)),
{
    assert(second.push(last).take(first.len() as int) =~= second.take(first.len() as int));
}

/// What begins a sequence that begins another also begins that one.
pub proof fn lemma_prefix_transitive<A>(first: Seq<A>, second: Seq<A>, third: Seq<A>)
    requires
        is_prefix(first, second),
        is_prefix(second, third),
    ensures
        is_prefix(first, third),
{
    assert(third.take(first.len() as int) =~= third.take(second.len() as int).take(first.len() as int));
}

} // verus!
