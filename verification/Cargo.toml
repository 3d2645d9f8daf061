[package]
name = "codesesh_api"
version = "0.1.0"
edition = "2021"
publish = false

[dependencies]
uuid = { version = "1", features = ["v4", "serde"] }
rand = "0.8"
axum = { version = "0.8", features = ["ws"] }
tokio = { version = "1", features = ["macros", "rt-multi-thread", "net", "time", "sync"] }
serde = { version = "1", features = ["derive"] }
serde_json = "1"
sqlx = { version = "0.8", default-features = false, features = ["runtime-tokio", "postgres", "uuid", "time", "macros", "migrate"] }
dashmap = "6"
futures-util = { version = "0.3", features = ["sink"] }
time = { version = "0.3", features = ["serde"] }
tower_governor = "0.7"
governor = "*"
tracing = "0.1"
tracing-subscriber = { version = "0.3", features = ["env-filter"] }
dotenvy = "0.15"
anyhow = "1"
thiserror = "*"
validator = { version = "*", features = ["derive"] }
