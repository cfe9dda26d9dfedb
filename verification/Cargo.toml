[package]
name = "overwatch"
version = "0.1.0"
edition = "2021"
publish = false

[dependencies]
regex = "1"
uuid = { version = "1", features = ["v4", "serde"] }
chrono = { version = "0.4", default-features = false, features = ["clock", "std", "serde"] }
serde = { version = "1", features = ["derive"] }
serde_json = "1"
axum = "0.7"
tokio = { version = "1", features = ["rt-multi-thread", "macros", "net", "time"] }
reqwest = { version = "0.12", default-features = false, features = ["json", "rustls-tls"] }
sea-orm = { version = "1", default-features = false, features = ["macros", "with-chrono", "with-uuid", "with-json", "sqlx-postgres", "runtime-tokio-rustls"] }
sea-orm-migration = { version = "1", default-features = false, features = ["runtime-tokio-rustls", "sqlx-postgres"] }
thiserror = "1"
tracing = "0.1"
tracing-subscriber = "0.3"
async-trait = "0.1"
