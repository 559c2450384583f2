//! Common table expressions and `CREATE OR REPLACE VIEW` statements, written
//! as SQL text through diesel's query builders for PostgreSQL and MySQL.
//!
//! A statement is put together from queries and names, and a walk of it
//! makes a fixed list of calls on a pass: the definitions of a `WITH` clause
//! in the order in which they were made, each behind those made before it.

pub mod ast_pass;
pub mod create_or_replace;
pub mod cte;
pub mod query_builder;
pub mod query_fragment;
pub mod view;
pub mod with_clause;

pub use ast_pass::{AstPass, Backend, Call};
pub use create_or_replace::{CreateOrReplace, CreateOrReplaceStatement};
pub use cte::{cte, Cte, CteSelectStmt, Empty};
pub use query_fragment::{
    is_safe_to_cache_prepared, to_sql, walk_calls, Query, QueryFragment, SelectStatement, SqlType,
};
pub use view::ViewDefinition;
