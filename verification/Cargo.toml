[package]
name = "mobc_surrealdb"
version = "0.1.0"
edition = "2021"
publish = false

[dependencies]
mobc = "=0.8.5"
surrealdb = { version = "=1.4.2", default-features = false, features = ["kv-mem"] }

[dev-dependencies]
tokio = { version = "=1.54.1", features = ["rt", "rt-multi-thread"] }
