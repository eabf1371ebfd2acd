[package]
name = "pg_introspect"
version = "0.1.0"
edition = "2021"
publish = false

[dependencies]
async-trait = "0.1"
serde_json = "1"
sqlx = { version = "0.8", default-features = false, features = ["json", "postgres", "runtime-tokio"] }
