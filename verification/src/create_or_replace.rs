//! `CREATE OR REPLACE VIEW`: a statement that gives a query a name under
//! which the database keeps it.

use crate::ast_pass::{call_views, AstPass, Backend, Call, CallView};
use crate::query_fragment::{
    calls_safe, calls_sql, lemma_calls_push, walk_calls, Query, QueryFragment, SqlType,
};
use diesel::result::QueryResult;
use vstd::prelude::*;

verus! {

/// The statement that creates the view `name` as `definition`, or replaces
/// the view of that name.
#[derive(Debug)]
pub struct CreateOrReplaceStatement<D> {
    definition: D,
    name: String,
}

/// A `CREATE OR REPLACE VIEW` statement as plain values.
pub ghost struct CreateOrReplaceView<D> {
    pub definition: D,
    pub name: Seq<char>,
}

impl<D> View for CreateOrReplaceStatement<D> {
    type V = CreateOrReplaceView<D>;

    closed spec fn view(&self) -> CreateOrReplaceView<D> {
        CreateOrReplaceView { definition: self.definition, name: self.name@ }
    }
}

impl<D: Clone> Clone for CreateOrReplaceStatement<D> {
    /// A statement of the same name, with a clone of the definition.
    fn clone(&self) -> (statement: CreateOrReplaceStatement<D>)
        ensures
            statement@.name == self@.name,
            cloned(self@.definition, statement@.definition),
    {
        Self { definition: self.definition.clone(), name: self.name.clone() }
    }
}

/// The calls of one walk of the statement: the keywords, the quoted name,
/// ` AS `, and the walk of the definition.
pub open spec fn create_or_replace_calls<D>(statement: CreateOrReplaceView<D>) -> Seq<CallView<D>> {
    seq![
        CallView::PushSql("CREATE OR REPLACE VIEW "@),
        CallView::PushIdentifier(statement.name),
        CallView::PushSql(" AS "@),
        CallView::WalkAst(statement.definition),
    ]
}

impl<D> CreateOrReplaceStatement<D> {
    /// The calls that one walk of the statement makes, in order.
    pub fn calls(&self) -> (calls: Vec<Call<'_, D>>)
        ensures
            call_views(calls@) == create_or_replace_calls(self@),
    {
        let mut calls = Vec::new();
        calls.push(Call::PushSql("CREATE OR REPLACE VIEW "));
        calls.push(Call::PushIdentifier(self.name.as_str()));
        calls.push(Call::PushSql(" AS "));
        calls.push(Call::WalkAst(&self.definition));
        calls
    }
}

impl<D: QueryFragment> QueryFragment for CreateOrReplaceStatement<D> {
    /// `CREATE OR REPLACE VIEW `, the quoted name, ` AS `, and the text of
    /// the definition.
    open spec fn sql(&self, backend: Backend) -> Seq<char> {
        "CREATE OR REPLACE VIEW "@ + backend.quoted(self@.name) + " AS "@
            + self@.definition.sql(backend)
    }

    /// The statement marks nothing itself.
    open spec fn safe_to_cache_prepared(&self) -> bool {
        self@.definition.safe_to_cache_prepared()
    }

    /// Writes the keywords, the quoted name and ` AS `, then walks the
    /// definition.
    fn walk_ast(&self, out: &mut AstPass) -> (result: QueryResult<()>) {
        let calls = self.calls();
        proof {
            lemma_create_or_replace_calls(out@.backend, self@);
        }
        walk_calls(&calls, out)
    }
}

impl<D> Query for CreateOrReplaceStatement<D> {
    /// The statement yields no rows of a declared type.
    open spec fn spec_sql_type(&self) -> SqlType {
        SqlType::Untyped
    }

    fn sql_type(&self) -> (sql_type: SqlType) {
        SqlType::Untyped
    }
}

/// What the calls of a `CREATE OR REPLACE VIEW` statement write, and that
/// they mark the statement only where the walk of the definition does.
pub proof fn lemma_create_or_replace_calls<D: QueryFragment>(
    backend: Backend,
    statement: CreateOrReplaceView<D>,
)
    ensures
        calls_sql(backend, create_or_replace_calls(statement)) == "CREATE OR REPLACE VIEW "@
            + backend.quoted(statement.name) + " AS "@ + statement.definition.sql(backend),
        calls_safe(create_or_replace_calls(statement))
            == statement.definition.safe_to_cache_prepared(),
{
    let calls = create_or_replace_calls(statement);
    let none = Seq::<CallView<D>>::empty();
    lemma_calls_push(backend, none, calls[0]);
    lemma_calls_push(backend, none.push(calls[0]), calls[1]);
    lemma_calls_push(backend, none.push(calls[0]).push(calls[1]), calls[2]);
    lemma_calls_push(backend, none.push(calls[0]).push(calls[1]).push(calls[2]), calls[3]);
    assert(calls =~= none.push(calls[0]).push(calls[1]).push(calls[2]).push(calls[3]));
}

/// Anything can be made the definition of a view.
pub trait CreateOrReplace<D>: Sized {
    /// The statement that creates or replaces the view `name`, defined as
    /// `self`.
    fn create_or_replace(self, name: &str) -> CreateOrReplaceStatement<D>;
}

impl<D> CreateOrReplace<D> for D {
    fn create_or_replace(self, name: &str) -> (statement: CreateOrReplaceStatement<D>)
        ensures
            statement@ == (CreateOrReplaceView { definition: self, name: name@ }),
    {
        CreateOrReplaceStatement { definition: self, name: name.to_string() }
    }
}

} // verus!
