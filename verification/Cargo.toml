[package]
name = "ecommerce"
version = "0.1.0"
edition = "2021"
publish = false

[dependencies]
anyhow = "1"
async-trait = "*"
axum = { version = "*", default-features = false, features = ["json"] }
chrono = "0.4"
rand = "0.9"
serde = { version = "1", features = ["derive"] }
serde_json = "1"
sqlx = { version = "*", default-features = false, features = ["postgres", "runtime-tokio", "chrono", "derive"] }
thiserror = "*"
tokio = { version = "1", features = ["sync", "time", "rt", "macros"] }
tonic = { version = "*", default-features = false }
tracing = "*"
validator = { version = "*", features = ["derive"] }
