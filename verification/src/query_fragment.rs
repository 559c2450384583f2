//! What can be walked, and how a list of calls is carried out on a pass.

use crate::ast_pass::{call_views, AstPass, Backend, Call, CallView};
use diesel::result::QueryResult;
use vstd::prelude::*;

verus! {

/// Something that writes itself as SQL text when it is walked.
pub trait QueryFragment {
    /// The SQL text that one walk writes for `backend`.
    spec fn sql(&self, backend: Backend) -> Seq<char>;

    /// Whether a walk leaves the statement safe to keep as a prepared
    /// statement.
    spec fn safe_to_cache_prepared(&self) -> bool;

    /// Walks the fragment: writes its text at the end of what `out` holds,
    /// and marks the statement as unsafe to cache unless the fragment is
    /// safe to cache. No call on the pass fails, so a walk returns `Ok`.
    fn walk_ast(&self, out: &mut AstPass) -> (result: QueryResult<()>)
        ensures
            result is Ok,
            final(out)@ == old(out)@.after(
                self.sql(old(out)@.backend),
                self.safe_to_cache_prepared(),
            ),
    ;
}

/// The type of the rows that a statement yields.
#[derive(Clone, Copy, Debug, PartialEq, Eq, Structural)]
pub enum SqlType {
    /// No declared row type.
    Untyped,
    /// The row type that the tag stands for. The tag is the caller's: it is
    /// compared and handed on, never read.
    Typed(u64),
}

/// A statement that says which type of rows it yields.
pub trait Query {
    /// The row type of the statement.
    spec fn spec_sql_type(&self) -> SqlType;

    /// The row type of the statement.
    fn sql_type(&self) -> (sql_type: SqlType)
        ensures
            sql_type == self.spec_sql_type(),
    ;
}

/// A select statement, given as the SQL text that it is written as and the
/// type of its rows.
#[derive(Debug)]
pub struct SelectStatement {
    sql: String,
    sql_type: SqlType,
}

/// A select statement as plain values.
pub ghost struct SelectStatementView {
    pub sql: Seq<char>,
    pub sql_type: SqlType,
}

impl View for SelectStatement {
    type V = SelectStatementView;

    closed spec fn view(&self) -> SelectStatementView {
        SelectStatementView { sql: self.sql@, sql_type: self.sql_type }
    }
}

impl SelectStatement {
    /// The statement that is written as `sql` and yields rows of `sql_type`.
    pub fn new(sql: &str, sql_type: SqlType) -> (statement: SelectStatement)
        ensures
            statement@ == (SelectStatementView { sql: sql@, sql_type }),
    {
        SelectStatement { sql: sql.to_string(), sql_type }
    }
}

impl Clone for SelectStatement {
    /// The same text and the same row type.
    fn clone(&self) -> (statement: SelectStatement)
        ensures
            statement@ == self@,
    {
        SelectStatement { sql: self.sql.clone(), sql_type: self.sql_type }
    }
}

impl QueryFragment for SelectStatement {
    /// The text that the statement was given as, whatever the backend.
    open spec fn sql(&self, backend: Backend) -> Seq<char> {
        self@.sql
    }

    open spec fn safe_to_cache_prepared(&self) -> bool {
        true
    }

    /// Writes the text of the statement.
    fn walk_ast(&self, out: &mut AstPass) -> (result: QueryResult<()>) {
        out.push_sql(self.sql.as_str());
        Ok(())
    }
}

impl Query for SelectStatement {
    open spec fn spec_sql_type(&self) -> SqlType {
        self@.sql_type
    }

    fn sql_type(&self) -> (sql_type: SqlType) {
        self.sql_type
    }
}

/// The SQL text of `query` for `backend`: what one walk of it writes to a
/// pass that holds nothing.
pub fn to_sql<T: QueryFragment>(query: &T, backend: Backend) -> (result: QueryResult<String>)
    ensures
        result matches Ok(sql) && sql@ == query.sql(backend),
{
    let mut out = AstPass::new(backend);
    query.walk_ast(&mut out)?;
    Ok(out.finish())
}

/// Whether `query` may be kept as a prepared statement: whether one walk of
/// it leaves a new pass unmarked.
pub fn is_safe_to_cache_prepared<T: QueryFragment>(query: &T, backend: Backend) -> (result:
    QueryResult<bool>)
    ensures
        result matches Ok(safe) && safe == query.safe_to_cache_prepared(),
{
    let mut out = AstPass::new(backend);
    query.walk_ast(&mut out)?;
    Ok(out.is_safe_to_cache_prepared())
}

/// The SQL text that one call writes for `backend`.
pub open spec fn call_sql<Q: QueryFragment>(backend: Backend, call: CallView<Q>) -> Seq<char> {
    match call {
        CallView::UnsafeToCachePrepared => Seq::empty(),
        CallView::PushSql(sql) => sql,
        CallView::PushIdentifier(identifier) => backend.quoted(identifier),
        CallView::WalkAst(query) => query.sql(backend),
    }
}

/// Whether one call leaves the statement safe to cache.
pub open spec fn call_safe<Q: QueryFragment>(call: CallView<Q>) -> bool {
    match call {
        CallView::UnsafeToCachePrepared => false,
        CallView::PushSql(_) => true,
        CallView::PushIdentifier(_) => true,
        CallView::WalkAst(query) => query.safe_to_cache_prepared(),
    }
}

/// The SQL text that a list of calls writes for `backend`: the texts of the
/// calls, one after the other.
pub open spec fn calls_sql<Q: QueryFragment>(backend: Backend, calls: Seq<CallView<Q>>) -> Seq<
    char,
> {
    calls.map_values(|call: CallView<Q>| call_sql(backend, call)).flatten()
}

/// Whether a list of calls leaves the statement safe to cache: whether each
/// of them does.
pub open spec fn calls_safe<Q: QueryFragment>(calls: Seq<CallView<Q>>) -> bool {
    forall|i: int| 0 <= i < calls.len() ==> call_safe(#[trigger] calls[i])
}

/// Carries out the calls on the pass, in order.
pub fn walk_calls<'a, Q: QueryFragment>(calls: &Vec<Call<'a, Q>>, out: &mut AstPass) -> (result:
    QueryResult<()>)
    ensures
        result is Ok,
        final(out)@ == old(out)@.after(
            calls_sql(old(out)@.backend, call_views(calls@)),
            calls_safe(call_views(calls@)),
        ),
{
    let ghost backend = out@.backend;
    let ghost views = call_views(calls@);
    let mut i: usize = 0;
    while i < calls.len()
        invariant
            i <= calls.len(),
            views == call_views(calls@),
            backend == old(out)@.backend,
            out@ == old(out)@.after(
                calls_sql(backend, views.take(i as int)),
                calls_safe(views.take(i as int)),
            ),
        decreases calls.len() - i,
    {
        match &calls[i] {
            Call::UnsafeToCachePrepared => {
                out.unsafe_to_cache_prepared();
            },
            Call::PushSql(sql) => {
                out.push_sql(sql);
            },
            Call::PushIdentifier(identifier) => {
                out.push_identifier(identifier)?;
            },
            Call::WalkAst(query) => {
                query.walk_ast(out)?;
            },
        }
        proof {
            let call = views[i as int];
            lemma_calls_push(backend, views.take(i as int), call);
            assert(views.take(i as int + 1) =~= views.take(i as int).push(call));
            assert((old(out)@.sql + calls_sql(backend, views.take(i as int))) + call_sql(
                backend,
                call,
            ) =~= old(out)@.sql + (calls_sql(backend, views.take(i as int)) + call_sql(
                backend,
                call,
            )));
        }
        i += 1;
    }
    proof {
        assert(views.take(i as int) =~= views);
    }
    Ok(())
}

/// One more call at the end of a list adds its text at the end, and keeps
/// the statement safe to cache only if it does.
pub proof fn lemma_calls_push<Q: QueryFragment>(
    backend: Backend,
    calls: Seq<CallView<Q>>,
    call: CallView<Q>,
)
    ensures
        calls_sql(backend, calls.push(call)) == calls_sql(backend, calls) + call_sql(backend, call),
        calls_safe(calls.push(call)) == (calls_safe(calls) && call_safe(call)),
{
    let texts = calls.map_values(|c: CallView<Q>| call_sql(backend, c));
    assert(calls.push(call).map_values(|c: CallView<Q>| call_sql(backend, c)) =~= texts.push(
        call_sql(backend, call),
    ));
    texts.lemma_flatten_push(call_sql(backend, call));
    if calls_safe(calls.push(call)) {
        assert(call_safe(calls.push(call)[calls.len() as int]));
        assert forall|i: int| 0 <= i < calls.len() implies call_safe(#[trigger] calls[i]) by {
            assert(calls.push(call)[i] == calls[i]);
        }
    }
}

/// Two lists of calls, one after the other, write the text of the first and
/// then that of the second, and keep the statement safe to cache only if
/// both do.
pub proof fn lemma_calls_concat<Q: QueryFragment>(
    backend: Backend,
    first: Seq<CallView<Q>>,
    second: Seq<CallView<Q>>,
)
    ensures
        calls_sql(backend, first + second) == calls_sql(backend, first) + calls_sql(
            backend,
            second,
        ),
        calls_safe(first + second) == (calls_safe(first) && calls_safe(second)),
    decreases second.len(),
{
    if second.len() > 0 {
        let earlier = second.drop_last();
        assert(second =~= earlier.push(second.last()));
        lemma_calls_concat(backend, first, earlier);
        lemma_calls_push(backend, first + earlier, second.last());
        lemma_calls_push(backend, earlier, second.last());
    }
}

} // verus!
