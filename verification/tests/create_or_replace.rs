use cte_sql::{
    cte, is_safe_to_cache_prepared, to_sql, Backend, Call, CreateOrReplace,
    CreateOrReplaceStatement, Query, SelectStatement, SqlType,
};

fn select_one() -> SelectStatement {
    SelectStatement::new("SELECT 1", SqlType::Typed(1))
}

#[test]
fn create_or_replace_view_exact_text() {
    let statement = select_one().create_or_replace("v1");
    assert_eq!(to_sql(&statement, Backend::Pg).unwrap(), "CREATE OR REPLACE VIEW \"v1\" AS SELECT 1");
}

#[test]
fn create_or_replace_is_untyped() {
    let statement = select_one().create_or_replace("v1");
    assert_eq!(statement.sql_type(), SqlType::Untyped);
}

#[test]
fn create_or_replace_calls_in_order() {
    let statement = select_one().create_or_replace("v1");
    let calls = statement.calls();
    assert_eq!(calls.len(), 4);
    assert!(matches!(calls[0], Call::PushSql("CREATE OR REPLACE VIEW ")));
    assert!(matches!(calls[1], Call::PushIdentifier("v1")));
    assert!(matches!(calls[2], Call::PushSql(" AS ")));
    match calls[3] {
        Call::WalkAst(definition) => assert_eq!(to_sql(definition, Backend::Pg).unwrap(), "SELECT 1"),
        _ => panic!("the last call walks the definition"),
    }
}

#[test]
fn create_or_replace_quotes_the_name() {
    let statement = select_one().create_or_replace("a\"b");
    assert_eq!(to_sql(&statement, Backend::Pg).unwrap(), "CREATE OR REPLACE VIEW \"a\"\"b\" AS SELECT 1");
}

#[test]
fn create_or_replace_marks_only_where_the_definition_does() {
    let plain = select_one().create_or_replace("v1");
    assert_eq!(is_safe_to_cache_prepared(&plain, Backend::Pg).unwrap(), true);
    let with_clause = cte(SelectStatement::new("SELECT 1", SqlType::Typed(1)), "a")
        .select_stmt(SelectStatement::new("SELECT * FROM a", SqlType::Typed(1)))
        .create_or_replace("v1");
    assert_eq!(is_safe_to_cache_prepared(&with_clause, Backend::Pg).unwrap(), false);
}

#[test]
fn view_of_a_statement_with_definitions() {
    let statement = cte(SelectStatement::new("SELECT id FROM t", SqlType::Typed(1)), "a")
        .select_stmt(SelectStatement::new("SELECT * FROM a", SqlType::Typed(1)))
        .create_or_replace("v");
    assert_eq!(
        to_sql(&statement, Backend::Pg).unwrap(),
        "CREATE OR REPLACE VIEW \"v\" AS WITH \"a\" AS ( SELECT id FROM t) SELECT * FROM a"
    );
}

#[test]
fn create_or_replace_clone_is_the_same_statement() {
    let statement: CreateOrReplaceStatement<SelectStatement> =
        select_one().create_or_replace("v1");
    let copy = statement.clone();
    assert_eq!(to_sql(&copy, Backend::Pg).unwrap(), to_sql(&statement, Backend::Pg).unwrap());
    assert_eq!(format!("{:?}", copy), format!("{:?}", statement));
}

#[test]
fn create_or_replace_view_for_mysql() {
    let statement = select_one().create_or_replace("v`1");
    assert_eq!(
        to_sql(&statement, Backend::Mysql).unwrap(),
        "CREATE OR REPLACE VIEW `v``1` AS SELECT 1"
    );
}
