//! The `WITH` clause as plain values: which calls write it, which text they
//! write, and what holds of both.

use crate::ast_pass::{marks, Backend, CallView};
use crate::query_fragment::{
    calls_safe, calls_sql, lemma_calls_concat, lemma_calls_push, QueryFragment,
};
use vstd::prelude::*;

verus! {

/// One definition of a `WITH` clause as plain values: a name, and the query
/// that it names.
pub ghost struct Definition<Query> {
    pub name: Seq<char>,
    pub query: Query,
}

/// A statement as plain values: the definitions of its `WITH` clause in the
/// order in which they were made, none where it has no such clause, and the
/// query behind them.
pub ghost struct StatementView<Query> {
    pub definitions: Seq<Definition<Query>>,
    pub body: Query,
}

impl<Query> StatementView<Query> {
    /// The definitions of the chain that the statement becomes under `name`:
    /// those that it has, and behind them its body under that name.
    pub open spec fn into_cte(self, name: Seq<char>) -> Seq<Definition<Query>> {
        self.definitions.push(Definition { name, query: self.body })
    }
}

/// What stands in front of the definition at index `i`: the keyword in front
/// of the first, a comma in front of each other one.
pub open spec fn separator(i: int) -> Seq<char> {
    if i == 0 {
        "WITH "@
    } else {
        " , "@
    }
}

/// The calls that write the definition at index `i`: what separates it from
/// the text before it, its quoted name, and its query between parentheses.
pub open spec fn definition_calls<Query>(definitions: Seq<Definition<Query>>, i: int) -> Seq<
    CallView<Query>,
> {
    seq![
        CallView::PushSql(separator(i)),
        CallView::PushIdentifier(definitions[i].name),
        CallView::PushSql(" AS ( "@),
        CallView::WalkAst(definitions[i].query),
        CallView::PushSql(") "@),
    ]
}

/// The calls that write a `WITH` clause: those of each definition, in the
/// order in which the definitions were made.
pub open spec fn with_clause_calls<Query>(definitions: Seq<Definition<Query>>) -> Seq<
    CallView<Query>,
> {
    Seq::new(definitions.len(), |i: int| definition_calls(definitions, i)).flatten()
}

/// The calls of one walk of a chain: the mark, then the `WITH` clause.
pub open spec fn chain_calls<Query>(definitions: Seq<Definition<Query>>) -> Seq<CallView<Query>> {
    seq![CallView::UnsafeToCachePrepared] + with_clause_calls(definitions)
}

/// The calls of one walk of a statement: the mark, the `WITH` clause where
/// there are definitions, and the walk of the body.
pub open spec fn statement_calls<Query>(statement: StatementView<Query>) -> Seq<CallView<Query>> {
    chain_calls(statement.definitions) + seq![CallView::WalkAst(statement.body)]
}

/// The text of one definition for `backend`: the quoted name, and the text
/// of the query between parentheses.
pub open spec fn definition_sql<Query: QueryFragment>(
    backend: Backend,
    definition: Definition<Query>,
) -> Seq<char> {
    backend.quoted(definition.name) + " AS ( "@ + definition.query.sql(backend) + ") "@
}

/// The text of a `WITH` clause for `backend`: the definitions in the order
/// in which they were made, `WITH ` in front of the first and ` , ` in front
/// of each other one. It ends in the space behind the last definition, and
/// is empty where there is no definition.
pub open spec fn with_clause_sql<Query: QueryFragment>(
    backend: Backend,
    definitions: Seq<Definition<Query>>,
) -> Seq<char> {
    Seq::new(
        definitions.len(),
        |i: int| separator(i) + definition_sql(backend, definitions[i]),
    ).flatten()
}

/// One more definition at the end adds its calls behind those of the
/// definitions before it.
pub proof fn lemma_with_clause_push<Query>(
    definitions: Seq<Definition<Query>>,
    definition: Definition<Query>,
)
    ensures
        with_clause_calls(definitions.push(definition)) == with_clause_calls(definitions)
            + definition_calls(definitions.push(definition), definitions.len() as int),
{
    let longer = definitions.push(definition);
    let groups = Seq::new(definitions.len(), |i: int| definition_calls(definitions, i));
    let longer_groups = Seq::new(longer.len(), |i: int| definition_calls(longer, i));
    let last = definition_calls(longer, definitions.len() as int);
    assert(longer_groups =~= groups.push(last));
    groups.lemma_flatten_push(last);
}

/// A `WITH` clause of N definitions is written in N groups of five calls, and
/// the group at index `i` writes the definition that was made at index `i`:
/// `WITH ` in front of the first and ` , ` in front of each other one, then
/// the quoted name, ` AS ( `, the query, and `) `. So the definitions stand in
/// the text in the order in which they were made.
pub proof fn lemma_with_clause_groups<Query>(definitions: Seq<Definition<Query>>, i: int)
    requires
        0 <= i < definitions.len(),
    ensures
        with_clause_calls(definitions).len() == 5 * definitions.len(),
        with_clause_calls(definitions).subrange(5 * i, 5 * i + 5) == definition_calls(
            definitions,
            i,
        ),
    decreases definitions.len(),
{
    let earlier = definitions.drop_last();
    assert(definitions =~= earlier.push(definitions.last()));
    lemma_with_clause_push(earlier, definitions.last());
    if earlier.len() > 0 {
        lemma_with_clause_groups(earlier, 0);
    }
    if i < earlier.len() {
        lemma_with_clause_groups(earlier, i);
    }
}

/// A statement with D definitions that is made a definition under `name`,
/// and then given a new body, is a statement with D + 1 definitions: the D
/// that it had, in the same order, and behind them its old body under
/// `name`. Its walk writes the old `WITH` clause first and the new
/// definition last, in front of the new body.
pub proof fn lemma_into_cte_defines_last<Query>(
    statement: StatementView<Query>,
    name: Seq<char>,
    body: Query,
)
    ensures
        ({
            let depth = statement.definitions.len() as int;
            let next = StatementView { definitions: statement.into_cte(name), body };
            &&& next.definitions.len() == depth + 1
            &&& next.definitions.take(depth) == statement.definitions
            &&& next.definitions[depth] == Definition { name, query: statement.body }
            &&& statement_calls(next) == chain_calls(statement.definitions) + definition_calls(
                next.definitions,
                depth,
            ) + seq![CallView::WalkAst(body)]
        }),
{
    lemma_with_clause_push(statement.definitions, Definition { name, query: statement.body });
}

/// No call of a `WITH` clause marks the statement.
pub proof fn lemma_with_clause_marks<Query>(definitions: Seq<Definition<Query>>)
    ensures
        marks(with_clause_calls(definitions)) == 0,
    decreases definitions.len(),
{
    let is_mark = |call: CallView<Query>| call is UnsafeToCachePrepared;
    if definitions.len() > 0 {
        let earlier = definitions.drop_last();
        let group = definition_calls(definitions, earlier.len() as int);
        assert(definitions =~= earlier.push(definitions.last()));
        lemma_with_clause_push(earlier, definitions.last());
        lemma_with_clause_marks(earlier);
        Seq::filter_distributes_over_add(with_clause_calls(earlier), group, is_mark);
        group.lemma_all_neg_filter_empty(is_mark);
    }
}

/// Of the calls of one walk of a chain, exactly one marks the statement as
/// unsafe to cache, however many definitions the chain has. What the walk of
/// a query does is the query's.
pub proof fn lemma_chain_marks_once<Query>(definitions: Seq<Definition<Query>>)
    ensures
        marks(chain_calls(definitions)) == 1,
{
    reveal(Seq::filter);
    let is_mark = |call: CallView<Query>| call is UnsafeToCachePrepared;
    let mark = seq![CallView::<Query>::UnsafeToCachePrepared];
    lemma_with_clause_marks(definitions);
    Seq::filter_distributes_over_add(mark, with_clause_calls(definitions), is_mark);
    assert(mark.filter(is_mark) =~= mark);
}

/// Of the calls of one walk of a statement, exactly one marks it as unsafe
/// to cache: with no definitions in front of the body, with one, or with
/// many. What the walk of a query does is the query's.
pub proof fn lemma_statement_marks_once<Query>(statement: StatementView<Query>)
    ensures
        marks(statement_calls(statement)) == 1,
{
    let is_mark = |call: CallView<Query>| call is UnsafeToCachePrepared;
    let body = seq![CallView::WalkAst(statement.body)];
    lemma_chain_marks_once(statement.definitions);
    Seq::filter_distributes_over_add(chain_calls(statement.definitions), body, is_mark);
    body.lemma_all_neg_filter_empty(is_mark);
}

/// What the calls of one definition write, and that they mark the statement
/// only where the walk of its query does.
pub proof fn lemma_definition_calls<Query: QueryFragment>(
    backend: Backend,
    definitions: Seq<Definition<Query>>,
    i: int,
)
    ensures
        calls_sql(backend, definition_calls(definitions, i)) == separator(i) + definition_sql(
            backend,
            definitions[i],
        ),
        calls_safe(definition_calls(definitions, i))
            == definitions[i].query.safe_to_cache_prepared(),
{
    let calls = definition_calls(definitions, i);
    let none = Seq::<CallView<Query>>::empty();
    lemma_calls_push(backend, none, calls[0]);
    lemma_calls_push(backend, none.push(calls[0]), calls[1]);
    lemma_calls_push(backend, none.push(calls[0]).push(calls[1]), calls[2]);
    lemma_calls_push(backend, none.push(calls[0]).push(calls[1]).push(calls[2]), calls[3]);
    lemma_calls_push(
        backend,
        none.push(calls[0]).push(calls[1]).push(calls[2]).push(calls[3]),
        calls[4],
    );
    assert(calls =~= none.push(calls[0]).push(calls[1]).push(calls[2]).push(calls[3]).push(
        calls[4],
    ));
}

/// The calls of a `WITH` clause write its text.
pub proof fn lemma_with_clause_calls<Query: QueryFragment>(
    backend: Backend,
    definitions: Seq<Definition<Query>>,
)
    ensures
        calls_sql(backend, with_clause_calls(definitions)) == with_clause_sql(
            backend,
            definitions,
        ),
    decreases definitions.len(),
{
    if definitions.len() > 0 {
        let earlier = definitions.drop_last();
        let last = earlier.len() as int;
        assert(definitions =~= earlier.push(definitions.last()));
        lemma_with_clause_calls(backend, earlier);
        lemma_with_clause_push(earlier, definitions.last());
        lemma_calls_concat(
            backend,
            with_clause_calls(earlier),
            definition_calls(definitions, last),
        );
        lemma_definition_calls(backend, definitions, last);
        let texts = Seq::new(
            earlier.len(),
            |i: int| separator(i) + definition_sql(backend, earlier[i]),
        );
        let longer_texts = Seq::new(
            definitions.len(),
            |i: int| separator(i) + definition_sql(backend, definitions[i]),
        );
        let last_text = separator(last) + definition_sql(backend, definitions[last]);
        assert(longer_texts =~= texts.push(last_text));
        texts.lemma_flatten_push(last_text);
    }
}

/// One walk of a chain writes the text of its `WITH` clause and leaves the
/// statement unsafe to cache.
pub proof fn lemma_chain_calls<Query: QueryFragment>(
    backend: Backend,
    definitions: Seq<Definition<Query>>,
)
    ensures
        calls_sql(backend, chain_calls(definitions)) == with_clause_sql(backend, definitions),
        !calls_safe(chain_calls(definitions)),
{
    let mark = seq![CallView::<Query>::UnsafeToCachePrepared];
    lemma_calls_concat(backend, mark, with_clause_calls(definitions));
    lemma_with_clause_calls(backend, definitions);
    lemma_calls_push(backend, Seq::empty(), mark[0]);
}

/// One walk of a statement writes the text of its `WITH` clause and then
/// that of its body, and leaves the statement unsafe to cache.
pub proof fn lemma_statement_calls<Query: QueryFragment>(
    backend: Backend,
    statement: StatementView<Query>,
)
    ensures
        calls_sql(backend, statement_calls(statement)) == with_clause_sql(
            backend,
            statement.definitions,
        ) + statement.body.sql(backend),
        !calls_safe(statement_calls(statement)),
{
    let body = seq![CallView::WalkAst(statement.body)];
    lemma_chain_calls(backend, statement.definitions);
    lemma_calls_concat(backend, chain_calls(statement.definitions), body);
    lemma_calls_push(backend, Seq::empty(), body[0]);
}

} // verus!
