//! The part of diesel that the statements are written with: its query
//! builders for PostgreSQL and for MySQL, which collect SQL text and quote
//! identifiers.
//!
//! Nothing about diesel is proved in this module. Each function states what
//! diesel's source shows of the function that it calls.

use diesel::mysql::{Mysql, MysqlQueryBuilder};
use diesel::pg::{Pg, PgQueryBuilder};
use diesel::query_builder::QueryBuilder;
use diesel::result::{Error, QueryResult};
use vstd::prelude::*;

verus! {

/// diesel's `PgQueryBuilder`, a value that Verus cannot look into.
#[verifier::external_type_specification]
#[verifier::external_body]
pub struct ExPgQueryBuilder(PgQueryBuilder);

/// diesel's `MysqlQueryBuilder`, a value that Verus cannot look into.
#[verifier::external_type_specification]
#[verifier::external_body]
pub struct ExMysqlQueryBuilder(MysqlQueryBuilder);

/// diesel's `result::Error`, a value that Verus cannot look into.
#[verifier::external_type_specification]
#[verifier::external_body]
pub struct ExError(Error);

/// The SQL text that a builder for PostgreSQL has collected so far.
pub uninterp spec fn pg_sql(builder: PgQueryBuilder) -> Seq<char>;

/// The SQL text that a builder for MySQL has collected so far.
pub uninterp spec fn mysql_sql(builder: MysqlQueryBuilder) -> Seq<char>;

/// One character of an identifier as it stands between the quotes: the
/// quote character is written twice, any other character as it is.
pub open spec fn escaped_char(quote: char, c: char) -> Seq<char> {
    if c == quote {
        seq![quote, quote]
    } else {
        seq![c]
    }
}

/// An identifier between two quote characters, with each quote character
/// inside it doubled.
pub open spec fn quoted_by(quote: char, identifier: Seq<char>) -> Seq<char> {
    seq![quote] + identifier.map_values(|c: char| escaped_char(quote, c)).flatten() + seq![quote]
}

/// `PgQueryBuilder::new`: a builder that has collected no text.
#[verifier::external_body]
pub(crate) fn pg_new() -> (builder: PgQueryBuilder)
    ensures
        pg_sql(builder) == Seq::<char>::empty(),
{
    PgQueryBuilder::new()
}

/// `QueryBuilder::push_sql` of `PgQueryBuilder`: the text is added at the end
/// of what the builder holds, unchanged.
#[verifier::external_body]
pub(crate) fn pg_push_sql(builder: &mut PgQueryBuilder, sql: &str)
    ensures
        pg_sql(*final(builder)) == pg_sql(*old(builder)) + sql@,
{
    QueryBuilder::<Pg>::push_sql(builder, sql)
}

/// `QueryBuilder::push_identifier` of `PgQueryBuilder`: the identifier is
/// added at the end of what the builder holds, between double quotes and
/// with each double quote in it doubled, and the call returns `Ok`.
#[verifier::external_body]
pub(crate) fn pg_push_identifier(builder: &mut PgQueryBuilder, identifier: &str) -> (result:
    QueryResult<()>)
    ensures
        result is Ok,
        pg_sql(*final(builder)) == pg_sql(*old(builder)) + quoted_by('"', identifier@),
{
    QueryBuilder::<Pg>::push_identifier(builder, identifier)
}

/// `QueryBuilder::finish` of `PgQueryBuilder`: the text that the builder
/// holds.
#[verifier::external_body]
pub(crate) fn pg_finish(builder: PgQueryBuilder) -> (sql: String)
    ensures
        sql@ == pg_sql(builder),
{
    QueryBuilder::<Pg>::finish(builder)
}

/// `MysqlQueryBuilder::new`: a builder that has collected no text.
#[verifier::external_body]
pub(crate) fn mysql_new() -> (builder: MysqlQueryBuilder)
    ensures
        mysql_sql(builder) == Seq::<char>::empty(),
{
    MysqlQueryBuilder::new()
}

/// `QueryBuilder::push_sql` of `MysqlQueryBuilder`: the text is added at the
/// end of what the builder holds, unchanged.
#[verifier::external_body]
pub(crate) fn mysql_push_sql(builder: &mut MysqlQueryBuilder, sql: &str)
    ensures
        mysql_sql(*final(builder)) == mysql_sql(*old(builder)) + sql@,
{
    QueryBuilder::<Mysql>::push_sql(builder, sql)
}

/// `QueryBuilder::push_identifier` of `MysqlQueryBuilder`: the identifier is
/// added at the end of what the builder holds, between backticks and with
/// each backtick in it doubled, and the call returns `Ok`.
#[verifier::external_body]
pub(crate) fn mysql_push_identifier(builder: &mut MysqlQueryBuilder, identifier: &str) -> (result:
    QueryResult<()>)
    ensures
        result is Ok,
        mysql_sql(*final(builder)) == mysql_sql(*old(builder)) + quoted_by('`', identifier@),
{
    QueryBuilder::<Mysql>::push_identifier(builder, identifier)
}

/// `QueryBuilder::finish` of `MysqlQueryBuilder`: the text that the builder
/// holds.
#[verifier::external_body]
pub(crate) fn mysql_finish(builder: MysqlQueryBuilder) -> (sql: String)
    ensures
        sql@ == mysql_sql(builder),
{
    QueryBuilder::<Mysql>::finish(builder)
}

} // verus!
