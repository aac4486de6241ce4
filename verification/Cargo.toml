[package]
name = "sixdkb"
version = "0.1.0"
edition = "2021"
publish = false

[dependencies]
anyhow = "*"
console = "*"
governor = "*"
indicatif = "*"
nonzero_ext = "*"
reqwest = { version = "*", default-features = false }
serde = { version = "*", features = ["derive"] }
serde_json = "*"
sqlx = { version = "*", default-features = false, features = ["runtime-tokio", "postgres"] }
tokio = { version = "*", features = ["rt-multi-thread", "macros", "signal", "time", "sync"] }
tracing = "*"
tracing-subscriber = { version = "*", features = ["env-filter", "fmt"] }
