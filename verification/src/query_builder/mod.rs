pub mod debug;
pub mod select_statement;
pub mod text;
pub mod update_statement;

use vstd::prelude::*;
use crate::result::Error;
use crate::types::NativeSqlType;
use self::text::{placeholder, quoted, valid_identifier};

pub use self::select_statement::SelectStatement;
pub use self::update_statement::{
    AsChangeset, AsUpdateQuery, Changeset, UpdateQuery, UpdateStatement, update,
};

verus! {

/// The values bound to a statement's placeholders, in placeholder order; `None` is SQL NULL.
pub type Binds = Vec<Option<Vec<u8>>>;

pub type BuildQueryResult = Result<(), Error>;

/// One step of rendering.
pub ghost enum Token {
    /// Literal SQL text.
    Sql(Seq<char>),
    /// A name that is written quoted.
    Identifier(Seq<char>),
    /// A value that is written as a placeholder and sent beside the text:
    /// the number of its SQL type, and its bytes.
    Bind(u32, Option<Seq<u8>>),
}

/// What a builder has accumulated: the text, and the bound values with their
/// types in the order of their placeholders.
pub ghost struct Output {
    pub sql: Seq<char>,
    pub binds: Seq<Option<Seq<u8>>>,
    pub bind_types: Seq<u32>,
}

impl Token {
    /// Whether the token can be written: an identifier must be valid.
    pub open spec fn accepted(self) -> bool {
        self matches Token::Identifier(name) ==> valid_identifier(name)
    }
}

impl Output {
    pub open spec fn empty() -> Output {
        Output { sql: Seq::empty(), binds: Seq::empty(), bind_types: Seq::empty() }
    }

    /// The output after one accepted token. A bound value gets the next
    /// placeholder: its index is one more than the number of values bound so far.
    pub open spec fn push(self, token: Token) -> Output {
        match token {
            Token::Sql(text) => Output { sql: self.sql + text, ..self },
            Token::Identifier(name) => Output { sql: self.sql + quoted(name), ..self },
            Token::Bind(oid, bytes) => Output {
                sql: self.sql + placeholder(self.binds.len() + 1),
                binds: self.binds.push(bytes),
                bind_types: self.bind_types.push(oid),
            },
        }
    }
}

/// Rendering `tokens` in order onto `start`. It stops before the first token
/// that is not accepted: the result is the output up to there, and whether
/// every token was written.
pub open spec fn render(tokens: Seq<Token>, start: Output) -> (Output, bool)
    decreases tokens.len(),
{
    if tokens.len() == 0 {
        (start, true)
    } else if !tokens[0].accepted() {
        (start, false)
    } else {
        render(tokens.skip(1), start.push(tokens[0]))
    }
}

/// Whether a builder that held `before` holds `after` and reports `result`
/// once it has rendered `tokens`.
pub open spec fn renders(
    tokens: Seq<Token>,
    before: Output,
    after: Output,
    result: BuildQueryResult,
) -> bool {
    let (out, complete) = render(tokens, before);
    &&& after == out
    &&& complete ==> result == Ok::<(), Error>(())
    &&& !complete ==> result == Err::<(), Error>(Error::InvalidCString)
}

/// The bound values as mathematical values.
pub open spec fn binds_view(binds: Binds) -> Seq<Option<Seq<u8>>> {
    Seq::new(binds@.len(), |i: int| bytes_view(binds@[i]))
}

pub open spec fn bytes_view(bytes: Option<Vec<u8>>) -> Option<Seq<u8>> {
    match bytes {
        Some(b) => Some(b@),
        None => None,
    }
}

/// Rendering one sequence after another is rendering their concatenation.
pub proof fn lemma_render_concat(first: Seq<Token>, second: Seq<Token>, start: Output)
    ensures
        render(first + second, start) == if render(first, start).1 {
            render(second, render(first, start).0)
        } else {
            render(first, start)
        },
    decreases first.len(),
{
    if first.len() == 0 {
        assert(first + second =~= second);
    } else {
        assert((first + second)[0] == first[0]);
        assert((first + second).skip(1) =~= first.skip(1) + second);
        if first[0].accepted() {
            lemma_render_concat(first.skip(1), second, start.push(first[0]));
        }
    }
}

/// Rendering a single token.
pub proof fn lemma_render_one(token: Token, start: Output)
    ensures
        render(seq![token], start) == if token.accepted() {
            (start.push(token), true)
        } else {
            (start, false)
        },
{
    let tokens = seq![token];
    assert(tokens[0] == token);
    if token.accepted() {
        assert(tokens.skip(1).len() == 0);
        assert(render(tokens.skip(1), start.push(token)) == (start.push(token), true));
    }
}

/// The values that the tokens bind, in the order of the tokens.
pub open spec fn bound_values(tokens: Seq<Token>) -> Seq<Option<Seq<u8>>>
    decreases tokens.len(),
{
    if tokens.len() == 0 {
        Seq::empty()
    } else {
        match tokens.last() {
            Token::Bind(_, bytes) => bound_values(tokens.drop_last()).push(bytes),
            _ => bound_values(tokens.drop_last()),
        }
    }
}

/// The numbers of the SQL types of the values that the tokens bind, in the
/// order of the tokens.
pub open spec fn bound_types(tokens: Seq<Token>) -> Seq<u32>
    decreases tokens.len(),
{
    if tokens.len() == 0 {
        Seq::empty()
    } else {
        match tokens.last() {
            Token::Bind(oid, _) => bound_types(tokens.drop_last()).push(oid),
            _ => bound_types(tokens.drop_last()),
        }
    }
}

/// The values that a concatenation binds are those of its parts, in order.
pub proof fn lemma_bound_values_concat(first: Seq<Token>, second: Seq<Token>)
    ensures
        bound_values(first + second) == bound_values(first) + bound_values(second),
        bound_types(first + second) == bound_types(first) + bound_types(second),
    decreases second.len(),
{
    if second.len() == 0 {
        assert(first + second =~= first);
        assert(bound_values(first) + bound_values(second) =~= bound_values(first));
        assert(bound_types(first) + bound_types(second) =~= bound_types(first));
    } else {
        assert((first + second).drop_last() =~= first + second.drop_last());
        assert((first + second).last() == second.last());
        lemma_bound_values_concat(first, second.drop_last());
        assert(bound_values(first + second) =~= bound_values(first) + bound_values(second));
        assert(bound_types(first + second) =~= bound_types(first) + bound_types(second));
    }
}

/// The order of the bound values is the order of their placeholders: a
/// complete rendering appends to the bound values exactly the values that
/// the tokens bind, in the order of the tokens, and their types beside them.
pub proof fn lemma_render_binds(tokens: Seq<Token>, start: Output)
    requires
        render(tokens, start).1,
    ensures
        render(tokens, start).0.binds == start.binds + bound_values(tokens),
        render(tokens, start).0.bind_types == start.bind_types + bound_types(tokens),
    decreases tokens.len(),
{
    if tokens.len() == 0 {
        assert(start.binds + bound_values(tokens) =~= start.binds);
        assert(start.bind_types + bound_types(tokens) =~= start.bind_types);
    } else {
        let front = tokens.drop_last();
        let last = seq![tokens.last()];
        assert(tokens =~= front + last);
        lemma_render_concat(front, last, start);
        lemma_render_one(tokens.last(), render(front, start).0);
        lemma_render_binds(front, start);
        let middle = render(front, start).0;
        assert(render(tokens, start).0 == middle.push(tokens.last()));
        assert(render(tokens, start).0.binds =~= start.binds + bound_values(tokens));
        assert(render(tokens, start).0.bind_types =~= start.bind_types + bound_types(tokens));
    }
}

/// Placeholders are numbered from one, by the number of values bound
/// before them: a bound value that follows `before` in a complete rendering
/// onto `start` is written as the placeholder whose index is one more than
/// the number of values that `start` holds and `before` binds.
pub proof fn lemma_placeholder_index(before: Seq<Token>, oid: u32, bytes: Option<Seq<u8>>, start: Output)
    requires
        render(before, start).1,
    ensures
        render(before + seq![Token::Bind(oid, bytes)], start).1,
        render(before + seq![Token::Bind(oid, bytes)], start).0.sql == render(before, start).0.sql
            + placeholder(start.binds.len() + bound_values(before).len() + 1),
{
    lemma_render_concat(before, seq![Token::Bind(oid, bytes)], start);
    lemma_render_one(Token::Bind(oid, bytes), render(before, start).0);
    lemma_render_binds(before, start);
}

/// Accumulates the text of a statement and the values bound to it.
pub trait QueryBuilder {
    /// What has been accumulated so far.
    spec fn output(&self) -> Output;

    /// Appends literal SQL text.
    fn push_sql(&mut self, sql: &str)
        ensures
            final(self).output() == old(self).output().push(Token::Sql(sql@)),
    ;

    /// Appends a quoted identifier, or fails on an identifier that is not
    /// valid and appends nothing.
    fn push_identifier(&mut self, identifier: &str) -> (r: BuildQueryResult)
        ensures
            renders(seq![Token::Identifier(identifier@)], old(self).output(), final(self).output(), r),
    ;

    /// Appends the next placeholder and records the value and the number of
    /// its SQL type `T` in placeholder order.
    fn push_bound_value<T: NativeSqlType>(&mut self, bind: Option<Vec<u8>>)
        ensures
            final(self).output() == old(self).output().push(
                Token::Bind(T::spec_oid(), bytes_view(bind)),
            ),
    ;
}

/// A piece of a statement that can be rendered.
pub trait QueryFragment {
    /// The steps that rendering this fragment takes, in order.
    spec fn tokens(&self) -> Seq<Token>;

    fn to_sql<QB: QueryBuilder>(&self, out: &mut QB) -> (r: BuildQueryResult)
        ensures
            renders(self.tokens(), old(out).output(), final(out).output(), r),
    ;
}

/// A fragment that is a whole query with rows of the SQL type `SqlType`.
pub trait Query: QueryFragment {
    type SqlType: NativeSqlType;
}

/// What can be turned into a query.
pub trait AsQuery {
    type SqlType: NativeSqlType;

    type Query: Query<SqlType = Self::SqlType>;

    spec fn spec_as_query(self) -> Self::Query;

    fn as_query(self) -> (r: Self::Query)
        ensures
            r == self.spec_as_query(),
    ;
}

} // verus!
