[package]
name = "bulk_import"
version = "0.1.0"
edition = "2021"
publish = false

[dependencies]
anyhow = "*"
argon2 = "*"
axum = { version = "*", features = ["multipart"] }
axum-extra = { version = "*", features = ["typed-header"] }
calamine = { version = "*", features = ["dates"] }
chrono = "*"
dotenv = "*"
jsonwebtoken = "*"
once_cell = "*"
rand_core = { version = "0.6", features = ["std"] }
serde = { version = "*", features = ["derive"] }
serde_json = "*"
sqlx = { version = "*", features = ["sqlite", "runtime-tokio"] }
tokio = { version = "*", features = ["full"] }
tracing = "*"
tracing-subscriber = { version = "*", features = ["env-filter", "fmt"] }
uuid = { version = "*", features = ["v4"] }

[dev-dependencies]
rust_xlsxwriter = "*"
