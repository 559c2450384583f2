//! Common table expressions: the definitions of a `WITH` clause, and the
//! statement that they stand in front of.

use crate::ast_pass::{call_views, lemma_call_views_push, AstPass, Backend, Call};
use crate::query_fragment::{walk_calls, Query, QueryFragment, SqlType};
use crate::with_clause::{
    chain_calls, lemma_chain_calls, lemma_statement_calls, lemma_with_clause_push,
    statement_calls, with_clause_calls, with_clause_sql, Definition, StatementView,
};
use diesel::result::QueryResult;
use vstd::prelude::*;

verus! {

/// A fragment that writes nothing.
#[derive(Debug, Clone, Copy)]
pub struct Empty;

impl QueryFragment for Empty {
    open spec fn sql(&self, backend: Backend) -> Seq<char> {
        Seq::empty()
    }

    open spec fn safe_to_cache_prepared(&self) -> bool {
        true
    }

    fn walk_ast(&self, out: &mut AstPass) -> (result: QueryResult<()>) {
        Ok(())
    }
}

/// A chain of common table expressions: a named query, and in front of it the
/// chain defined before, if there is one.
///
/// Its view is the list of its definitions in the order in which they were
/// defined; the last one is the chain's own.
#[derive(Debug)]
#[non_exhaustive]
pub struct Cte<Query> {
    query: Query,
    inner: Option<Box<Cte<Query>>>,
    name: String,
}

impl<Query> Cte<Query> {
    /// The definitions of the chain, those of `inner` first.
    closed spec fn definitions(&self) -> Seq<Definition<Query>>
        decreases self,
    {
        let own = Definition { name: self.name@, query: self.query };
        match self.inner {
            None => seq![own],
            Some(inner) => inner.definitions().push(own),
        }
    }
}

impl<Query> View for Cte<Query> {
    type V = Seq<Definition<Query>>;

    closed spec fn view(&self) -> Seq<Definition<Query>> {
        self.definitions()
    }
}

/// Starts a chain: `query` under `name`, with nothing defined before it.
pub fn cte<Query>(query: Query, name: &str) -> (chain: Cte<Query>)
    ensures
        chain@ == seq![Definition { name: name@, query }],
{
    Cte::new(query, None, name)
}

impl<Query> Cte<Query> {
    /// `query` under `name`, behind the definitions of `inner`.
    pub fn new(query: Query, inner: Option<Cte<Query>>, name: &str) -> (chain: Cte<Query>)
        ensures
            chain@ == (match inner {
                Some(inner) => inner@,
                None => Seq::empty(),
            }).push(Definition { name: name@, query }),
    {
        let inner = match inner {
            Some(inner) => Some(Box::new(inner)),
            None => None,
        };
        Cte { query, inner, name: name.to_string() }
    }

    /// Adds a definition behind those of the chain: `query` under `name`.
    pub fn cte(self, query: Query, name: &str) -> (chain: Cte<Query>)
        ensures
            chain@ == self@.push(Definition { name: name@, query }),
    {
        Cte::new(query, Some(self), name)
    }

    /// A chain has at least one definition.
    pub proof fn lemma_not_empty(&self)
        ensures
            self@.len() >= 1,
    {
    }

    /// Adds the calls of the chain's `WITH` clause behind `calls`: those of
    /// the definitions made before, then the chain's own.
    fn push_definitions<'a>(&'a self, calls: &mut Vec<Call<'a, Query>>)
        ensures
            call_views(final(calls)@) == call_views(old(calls)@) + with_clause_calls(self@),
        decreases self,
    {
        let ghost own = Definition { name: self.name@, query: self.query };
        let ghost earlier = self@.drop_last();
        let ghost mut calls_0 = calls@;
        match &self.inner {
            None => {
                calls.push(Call::PushSql("WITH "));
            },
            Some(inner) => {
                inner.push_definitions(calls);
                proof {
                    assert(earlier =~= inner@);
                    calls_0 = calls@;
                }
                calls.push(Call::PushSql(" , "));
            },
        }
        let ghost calls_1 = calls@;
        calls.push(Call::PushIdentifier(self.name.as_str()));
        let ghost calls_2 = calls@;
        calls.push(Call::PushSql(" AS ( "));
        let ghost calls_3 = calls@;
        calls.push(Call::WalkAst(&self.query));
        let ghost calls_4 = calls@;
        calls.push(Call::PushSql(") "));
        proof {
            lemma_call_views_push(calls_0, calls_1.last());
            lemma_call_views_push(calls_1, calls_2.last());
            lemma_call_views_push(calls_2, calls_3.last());
            lemma_call_views_push(calls_3, calls_4.last());
            lemma_call_views_push(calls_4, calls@.last());
            assert(self@ =~= earlier.push(own));
            lemma_with_clause_push(earlier, own);
        }
    }

    /// The calls that one walk of the chain makes, in order.
    pub fn calls(&self) -> (calls: Vec<Call<'_, Query>>)
        ensures
            call_views(calls@) == chain_calls(self@),
    {
        let mut calls = Vec::new();
        calls.push(Call::UnsafeToCachePrepared);
        self.push_definitions(&mut calls);
        calls
    }
}

impl<Query: Clone> Cte<Query> {
    /// A copy of the chain, definition by definition.
    fn clone_chain(&self) -> (chain: Cte<Query>)
        ensures
            chain@.len() == self@.len(),
            forall|i: int|
                #![trigger chain@[i]]
                0 <= i < self@.len() ==> chain@[i].name == self@[i].name && cloned(
                    self@[i].query,
                    chain@[i].query,
                ),
        decreases self,
    {
        let inner = match &self.inner {
            None => None,
            Some(inner) => Some(Box::new(inner.clone_chain())),
        };
        Cte { query: self.query.clone(), inner, name: self.name.clone() }
    }
}

impl<Query: Clone> Clone for Cte<Query> {
    /// A chain with the same names in the same order, each query a clone of
    /// the one in its place.
    fn clone(&self) -> (chain: Cte<Query>)
        ensures
            chain@.len() == self@.len(),
            forall|i: int|
                #![trigger chain@[i]]
                0 <= i < self@.len() ==> chain@[i].name == self@[i].name && cloned(
                    self@[i].query,
                    chain@[i].query,
                ),
    {
        self.clone_chain()
    }
}

impl<Query: QueryFragment> QueryFragment for Cte<Query> {
    /// The text of the `WITH` clause.
    open spec fn sql(&self, backend: Backend) -> Seq<char> {
        with_clause_sql(backend, self@)
    }

    /// A statement with a `WITH` clause is never safe to cache.
    open spec fn safe_to_cache_prepared(&self) -> bool {
        false
    }

    /// Marks the statement as unsafe to cache, then writes the `WITH` clause:
    /// each definition behind those made before it.
    fn walk_ast(&self, out: &mut AstPass) -> (result: QueryResult<()>) {
        let calls = self.calls();
        proof {
            lemma_chain_calls(out@.backend, self@);
        }
        walk_calls(&calls, out)
    }
}

impl<Q: Query> Query for Cte<Q> {
    /// The row type of the chain's own query, the one defined last.
    open spec fn spec_sql_type(&self) -> SqlType {
        self@.last().query.spec_sql_type()
    }

    fn sql_type(&self) -> (sql_type: SqlType) {
        self.query.sql_type()
    }
}

/// A select statement behind the definitions that it may use.
pub struct CteSelectStmt<Query> {
    cte: Option<Cte<Query>>,
    select_stmt: Query,
}

impl<Query> View for CteSelectStmt<Query> {
    type V = StatementView<Query>;

    closed spec fn view(&self) -> StatementView<Query> {
        StatementView {
            definitions: match self.cte {
                Some(chain) => chain@,
                None => Seq::empty(),
            },
            body: self.select_stmt,
        }
    }
}

impl<Query> Cte<Query> {
    /// Ends the chain: `query` is the statement that stands behind its
    /// definitions.
    pub fn select_stmt(self, query: Query) -> (statement: CteSelectStmt<Query>)
        ensures
            statement@ == (StatementView { definitions: self@, body: query }),
    {
        CteSelectStmt { cte: Some(self), select_stmt: query }
    }
}

impl<Query> CteSelectStmt<Query> {
    /// `select_stmt` behind the definitions of `cte`, or alone.
    pub fn new(cte: Option<Cte<Query>>, select_stmt: Query) -> (statement: CteSelectStmt<Query>)
        ensures
            statement@ == (StatementView {
                definitions: match cte {
                    Some(chain) => chain@,
                    None => Seq::empty(),
                },
                body: select_stmt,
            }),
    {
        CteSelectStmt { cte, select_stmt }
    }

    /// Makes the statement a definition: its body under `name`, behind the
    /// definitions that it had.
    pub fn into_cte(self, name: &str) -> (chain: Cte<Query>)
        ensures
            chain@ == self@.into_cte(name@),
    {
        Cte::new(self.select_stmt, self.cte, name)
    }

    /// The calls that one walk of the statement makes, in order.
    pub fn calls(&self) -> (calls: Vec<Call<'_, Query>>)
        ensures
            call_views(calls@) == statement_calls(self@),
    {
        let mut calls = Vec::new();
        calls.push(Call::UnsafeToCachePrepared);
        if let Some(chain) = &self.cte {
            chain.push_definitions(&mut calls);
        }
        let ghost calls_0 = calls@;
        calls.push(Call::WalkAst(&self.select_stmt));
        proof {
            lemma_call_views_push(calls_0, calls@.last());
        }
        calls
    }
}

impl<Query: QueryFragment> QueryFragment for CteSelectStmt<Query> {
    /// The text of the `WITH` clause, if there is one, and directly behind
    /// it that of the body.
    open spec fn sql(&self, backend: Backend) -> Seq<char> {
        with_clause_sql(backend, self@.definitions) + self@.body.sql(backend)
    }

    /// The statement is never safe to cache, with or without definitions.
    open spec fn safe_to_cache_prepared(&self) -> bool {
        false
    }

    /// Marks the statement as unsafe to cache, writes the `WITH` clause if
    /// there is one, and walks the body.
    fn walk_ast(&self, out: &mut AstPass) -> (result: QueryResult<()>) {
        let calls = self.calls();
        proof {
            lemma_statement_calls(out@.backend, self@);
        }
        walk_calls(&calls, out)
    }
}

impl<Q: Query> Query for CteSelectStmt<Q> {
    /// The row type of the body, whatever is defined in front of it.
    open spec fn spec_sql_type(&self) -> SqlType {
        self@.body.spec_sql_type()
    }

    fn sql_type(&self) -> (sql_type: SqlType) {
        self.select_stmt.sql_type()
    }
}

/// The row type of a statement is that of its body: two statements with the
/// same body have the same row type, whatever each has in front of it.
pub proof fn lemma_sql_type_of_body<Q: Query>(first: CteSelectStmt<Q>, second: CteSelectStmt<Q>)
    requires
        first@.body == second@.body,
    ensures
        first.spec_sql_type() == first@.body.spec_sql_type(),
        first.spec_sql_type() == second.spec_sql_type(),
{
}

} // verus!
