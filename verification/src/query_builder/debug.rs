use vstd::prelude::*;
use vstd::string::StringExecFns;
use crate::result::Error;
use crate::types::NativeSqlType;
use super::{Binds, BuildQueryResult, Output, QueryBuilder, Token, binds_view, bytes_view, lemma_render_one};
use super::text::{is_nul_free, push_placeholder, push_quoted};

verus! {

/// A builder that needs no connection: it keeps what it is given, open to inspection.
pub struct DebugQueryBuilder {
    pub sql: String,
    pub binds: Binds,
    pub bind_types: Vec<u32>,
}

impl DebugQueryBuilder {
    pub fn new() -> (r: Self)
        ensures
            r.output() == Output::empty(),
    {
        let r = DebugQueryBuilder { sql: String::new(), binds: Vec::new(), bind_types: Vec::new() };
        assert(binds_view(r.binds) =~= Seq::empty());
        r
    }
}

impl QueryBuilder for DebugQueryBuilder {
    open spec fn output(&self) -> Output {
        Output { sql: self.sql@, binds: binds_view(self.binds), bind_types: self.bind_types@ }
    }

    fn push_sql(&mut self, sql: &str) {
        self.sql.append(sql);
    }

    fn push_identifier(&mut self, identifier: &str) -> (r: BuildQueryResult) {
        proof {
            lemma_render_one(Token::Identifier(identifier@), self.output());
        }
        if is_nul_free(identifier) {
            push_quoted(&mut self.sql, identifier);
            Ok(())
        } else {
            Err(Error::InvalidCString)
        }
    }

    fn push_bound_value<T: NativeSqlType>(&mut self, bind: Option<Vec<u8>>) {
        self.binds.push(bind);
        push_placeholder(&mut self.sql, self.binds.len());
        self.bind_types.push(T::oid());
        assert(binds_view(self.binds) =~= binds_view(old(self).binds).push(bytes_view(bind)));
    }
}

} // verus!
