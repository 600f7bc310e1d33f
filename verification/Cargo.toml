[package]
name = "sql_schema"
version = "0.1.0"
edition = "2021"
publish = false

[dependencies]
sqlparser = "0.43"
serde = { version = "1", features = ["derive"] }
serde_json = "1"
tokio = { version = "1", features = ["macros", "rt-multi-thread"] }
