[package]
name = "harkonnen"
version = "0.1.0"
edition = "2021"
publish = false

[dependencies]
anyhow = "=1.0.104"
async-trait = "=0.1.92"
chrono = { version = "=0.4.45", features = ["serde"] }
futures = "=0.3.34"
serde = { version = "=1.0.229", features = ["derive"] }
serde_json = "=1.0.154"
sha2 = "=0.10.9"
sqlx = { version = "=0.8.6", default-features = false, features = ["runtime-tokio", "sqlite"] }
tokio = { version = "=1.54.1", features = ["fs", "macros", "rt-multi-thread", "time"] }
tracing = "=0.1.44"
typedb-driver = "=3.14.0"
