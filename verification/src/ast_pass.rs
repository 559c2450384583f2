//! What a statement is walked with: the pass that collects its SQL text, and
//! the calls that a walk makes on it.

use crate::query_builder::{
    mysql_finish, mysql_new, mysql_push_identifier, mysql_push_sql, mysql_sql, pg_finish, pg_new,
    pg_push_identifier, pg_push_sql, pg_sql, quoted_by,
};
use diesel::mysql::MysqlQueryBuilder;
use diesel::pg::PgQueryBuilder;
use diesel::result::QueryResult;
use vstd::prelude::*;

verus! {

/// The database that a statement is written for. It decides how an
/// identifier is quoted.
#[derive(Clone, Copy, Debug, PartialEq, Eq, Structural)]
pub enum Backend {
    /// PostgreSQL: identifiers stand between double quotes.
    Pg,
    /// MySQL: identifiers stand between backticks.
    Mysql,
}

impl Backend {
    /// The character that the backend puts around an identifier.
    pub open spec fn quote(self) -> char {
        match self {
            Backend::Pg => '"',
            Backend::Mysql => '`',
        }
    }

    /// An identifier as the backend reads it: between two quote characters,
    /// with each quote character inside it doubled.
    pub open spec fn quoted(self, identifier: Seq<char>) -> Seq<char> {
        quoted_by(self.quote(), identifier)
    }
}

/// diesel's query builder for one of the backends.
enum Builder {
    Pg(PgQueryBuilder),
    Mysql(MysqlQueryBuilder),
}

/// What one walk of a statement collects: its SQL text, in diesel's query
/// builder for the backend, and whether the statement may be kept as a
/// prepared statement.
pub struct AstPass {
    builder: Builder,
    safe_to_cache_prepared: bool,
}

/// What a pass holds, as plain values.
pub ghost struct AstPassView {
    /// The backend that the text is written for.
    pub backend: Backend,
    /// The SQL text written so far.
    pub sql: Seq<char>,
    /// Whether nothing has marked the statement as unsafe to cache so far.
    pub safe_to_cache_prepared: bool,
}

impl View for AstPass {
    type V = AstPassView;

    closed spec fn view(&self) -> AstPassView {
        match self.builder {
            Builder::Pg(builder) => AstPassView {
                backend: Backend::Pg,
                sql: pg_sql(builder),
                safe_to_cache_prepared: self.safe_to_cache_prepared,
            },
            Builder::Mysql(builder) => AstPassView {
                backend: Backend::Mysql,
                sql: mysql_sql(builder),
                safe_to_cache_prepared: self.safe_to_cache_prepared,
            },
        }
    }
}

impl AstPassView {
    /// The pass after a walk that wrote `sql` and that left the statement
    /// safe to cache only if `safe` holds.
    pub open spec fn after(self, sql: Seq<char>, safe: bool) -> AstPassView {
        AstPassView {
            backend: self.backend,
            sql: self.sql + sql,
            safe_to_cache_prepared: self.safe_to_cache_prepared && safe,
        }
    }

    /// The pass after `sql` was written to it.
    pub open spec fn wrote(self, sql: Seq<char>) -> AstPassView {
        self.after(sql, true)
    }

    /// The pass after the statement was marked as unsafe to cache.
    pub open spec fn marked(self) -> AstPassView {
        self.after(Seq::empty(), false)
    }
}

impl AstPass {
    /// A pass for `backend` that has collected nothing: no text, and safe to
    /// cache.
    pub fn new(backend: Backend) -> (out: AstPass)
        ensures
            out@ == (AstPassView {
                backend,
                sql: Seq::<char>::empty(),
                safe_to_cache_prepared: true,
            }),
    {
        let builder = match backend {
            Backend::Pg => Builder::Pg(pg_new()),
            Backend::Mysql => Builder::Mysql(mysql_new()),
        };
        AstPass { builder, safe_to_cache_prepared: true }
    }

    /// The backend that the pass writes for.
    pub fn backend(&self) -> (backend: Backend)
        ensures
            backend == self@.backend,
    {
        match &self.builder {
            Builder::Pg(_) => Backend::Pg,
            Builder::Mysql(_) => Backend::Mysql,
        }
    }

    /// Marks the statement as unsafe to keep as a prepared statement.
    pub fn unsafe_to_cache_prepared(&mut self)
        ensures
            final(self)@ == old(self)@.marked(),
    {
        self.safe_to_cache_prepared = false;
    }

    /// Writes `sql` at the end of the text, as it is.
    pub fn push_sql(&mut self, sql: &str)
        ensures
            final(self)@ == old(self)@.wrote(sql@),
    {
        match &mut self.builder {
            Builder::Pg(builder) => pg_push_sql(builder, sql),
            Builder::Mysql(builder) => mysql_push_sql(builder, sql),
        }
    }

    /// Writes `identifier` at the end of the text, quoted as the backend
    /// reads it. diesel's builders quote every identifier, so the call
    /// returns `Ok` for each of them.
    pub fn push_identifier(&mut self, identifier: &str) -> (result: QueryResult<()>)
        ensures
            result is Ok,
            final(self)@ == old(self)@.wrote(old(self)@.backend.quoted(identifier@)),
    {
        match &mut self.builder {
            Builder::Pg(builder) => pg_push_identifier(builder, identifier),
            Builder::Mysql(builder) => mysql_push_identifier(builder, identifier),
        }
    }

    /// Whether nothing has marked the statement as unsafe to cache.
    pub fn is_safe_to_cache_prepared(&self) -> (safe: bool)
        ensures
            safe == self@.safe_to_cache_prepared,
    {
        self.safe_to_cache_prepared
    }

    /// Ends the pass and hands out the text.
    pub fn finish(self) -> (sql: String)
        ensures
            sql@ == self@.sql,
    {
        match self.builder {
            Builder::Pg(builder) => pg_finish(builder),
            Builder::Mysql(builder) => mysql_finish(builder),
        }
    }
}

/// One call that a walk makes on the pass.
pub enum Call<'a, Q> {
    /// Mark the statement as unsafe to keep as a prepared statement.
    UnsafeToCachePrepared,
    /// Write this text as it is.
    PushSql(&'a str),
    /// Write this identifier, quoted.
    PushIdentifier(&'a str),
    /// Walk this query.
    WalkAst(&'a Q),
}

/// A call as plain values: the text in place of the string, the query in
/// place of the reference to it.
pub ghost enum CallView<Q> {
    UnsafeToCachePrepared,
    PushSql(Seq<char>),
    PushIdentifier(Seq<char>),
    WalkAst(Q),
}

impl<'a, Q> View for Call<'a, Q> {
    type V = CallView<Q>;

    open spec fn view(&self) -> CallView<Q> {
        match *self {
            Call::UnsafeToCachePrepared => CallView::UnsafeToCachePrepared,
            Call::PushSql(sql) => CallView::PushSql(sql@),
            Call::PushIdentifier(identifier) => CallView::PushIdentifier(identifier@),
            Call::WalkAst(query) => CallView::WalkAst(*query),
        }
    }
}

/// The calls of a list as plain values, in the same order.
pub open spec fn call_views<'a, Q>(calls: Seq<Call<'a, Q>>) -> Seq<CallView<Q>> {
    calls.map_values(|call: Call<'a, Q>| call@)
}

/// One more call at the end of a list is one more at the end of its views.
pub proof fn lemma_call_views_push<'a, Q>(calls: Seq<Call<'a, Q>>, call: Call<'a, Q>)
    ensures
        call_views(calls.push(call)) == call_views(calls).push(call@),
{
}

/// How many calls of a list mark the statement as unsafe to cache.
pub open spec fn marks<Q>(calls: Seq<CallView<Q>>) -> nat {
    calls.filter(|call: CallView<Q>| call is UnsafeToCachePrepared).len()
}

} // verus!
