[package]
name = "cte_sql"
version = "0.1.0"
edition = "2021"
publish = false

[dependencies]
diesel = { version = "=2.3.14", default-features = false, features = ["postgres_backend", "mysql_backend"] }
