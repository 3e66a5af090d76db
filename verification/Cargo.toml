[package]
name = "nightraid"
version = "0.1.0"
edition = "2021"
publish = false

[dependencies]
anyhow = "1"
async-trait = "0.1"
chrono = "0.4"
dotenvy = "0.15"
ezsockets = { version = "0.6", features = ["tungstenite"] }
serde = { version = "1", features = ["derive"] }
serde_json = "1"
shlex = "1"
sqlx = { version = "0.8", default-features = false, features = ["postgres", "runtime-tokio", "chrono", "macros", "migrate"] }
tokio = { version = "1", features = ["macros", "rt-multi-thread"] }
tracing = "0.1"
tracing-subscriber = "0.3"
