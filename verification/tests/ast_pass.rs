use cte_sql::{
    is_safe_to_cache_prepared, to_sql, walk_calls, AstPass, Backend, Call, CreateOrReplace, Query,
    SelectStatement, SqlType, ViewDefinition,
};

#[test]
fn new_pass_holds_nothing() {
    let out = AstPass::new(Backend::Pg);
    assert_eq!(out.is_safe_to_cache_prepared(), true);
    assert_eq!(out.finish(), "");
}

#[test]
fn push_sql_appends() {
    let mut out = AstPass::new(Backend::Pg);
    out.push_sql("SELECT ");
    out.push_sql("1");
    assert_eq!(out.finish(), "SELECT 1");
}

#[test]
fn push_identifier_quotes() {
    let mut out = AstPass::new(Backend::Pg);
    out.push_identifier("users").unwrap();
    out.push_sql(".");
    out.push_identifier("na\"me").unwrap();
    assert_eq!(out.finish(), "\"users\".\"na\"\"me\"");
}

#[test]
fn push_identifier_doubles_every_quote() {
    let mut out = AstPass::new(Backend::Pg);
    out.push_identifier("\"\"").unwrap();
    assert_eq!(out.finish(), "\"\"\"\"\"\"");
}

#[test]
fn mark_stays() {
    let mut out = AstPass::new(Backend::Pg);
    out.unsafe_to_cache_prepared();
    out.push_sql("SELECT 1");
    assert_eq!(out.is_safe_to_cache_prepared(), false);
    assert_eq!(out.finish(), "SELECT 1");
}

#[test]
fn walk_calls_carries_out_each_call() {
    let query = SelectStatement::new("SELECT 1", SqlType::Typed(1));
    let calls = vec![
        Call::PushSql("( "),
        Call::WalkAst(&query),
        Call::PushSql(" ) AS "),
        Call::PushIdentifier("one"),
    ];
    let mut out = AstPass::new(Backend::Pg);
    walk_calls(&calls, &mut out).unwrap();
    assert_eq!(out.is_safe_to_cache_prepared(), true);
    assert_eq!(out.finish(), "( SELECT 1 ) AS \"one\"");
}

#[test]
fn walk_calls_marks_on_the_mark() {
    let calls: Vec<Call<'_, SelectStatement>> = vec![Call::UnsafeToCachePrepared];
    let mut out = AstPass::new(Backend::Pg);
    walk_calls(&calls, &mut out).unwrap();
    assert_eq!(out.is_safe_to_cache_prepared(), false);
    assert_eq!(out.finish(), "");
}

#[test]
fn select_statement_is_its_text() {
    let query = SelectStatement::new("SELECT \"id\" FROM \"t\"", SqlType::Typed(3));
    assert_eq!(to_sql(&query, Backend::Pg).unwrap(), "SELECT \"id\" FROM \"t\"");
    assert_eq!(is_safe_to_cache_prepared(&query, Backend::Pg).unwrap(), true);
    assert_eq!(query.sql_type(), SqlType::Typed(3));
    let copy = query.clone();
    assert_eq!(to_sql(&copy, Backend::Pg).unwrap(), "SELECT \"id\" FROM \"t\"");
    assert_eq!(copy.sql_type(), SqlType::Typed(3));
}

struct ActiveUsers;

impl ViewDefinition for ActiveUsers {
    type Definition = SelectStatement;

    fn name() -> String {
        "active_users".to_string()
    }

    fn definition() -> SelectStatement {
        SelectStatement::new("SELECT id FROM users WHERE active", SqlType::Typed(1))
    }
}

#[test]
fn view_definition_gives_name_and_statement() {
    let statement = ActiveUsers::definition().create_or_replace(&ActiveUsers::name());
    assert_eq!(
        to_sql(&statement, Backend::Pg).unwrap(),
        "CREATE OR REPLACE VIEW \"active_users\" AS SELECT id FROM users WHERE active"
    );
}

#[test]
fn new_mysql_pass_holds_nothing() {
    let out = AstPass::new(Backend::Mysql);
    assert_eq!(out.backend(), Backend::Mysql);
    assert_eq!(out.is_safe_to_cache_prepared(), true);
    assert_eq!(out.finish(), "");
}

#[test]
fn mysql_push_sql_appends() {
    let mut out = AstPass::new(Backend::Mysql);
    out.push_sql("SELECT ");
    out.push_sql("1");
    assert_eq!(out.finish(), "SELECT 1");
}

#[test]
fn mysql_push_identifier_quotes() {
    let mut out = AstPass::new(Backend::Mysql);
    out.push_identifier("users").unwrap();
    out.push_sql(".");
    out.push_identifier("na`me").unwrap();
    out.push_sql(".");
    out.push_identifier("``").unwrap();
    assert_eq!(out.finish(), "`users`.`na``me`.``````");
}
