[package]
name = "sql_decompose"
version = "0.1.0"
edition = "2021"
publish = false

[dependencies]
sqlparser = "0.49"
md5 = "0.7"
serde = { version = "1", features = ["derive"] }
sqlx = { version = "0.8", default-features = false, features = ["runtime-tokio", "postgres", "mysql", "bigdecimal", "chrono"] }
tokio = { version = "1", features = ["rt-multi-thread", "macros", "sync"] }
