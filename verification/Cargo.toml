[package]
name = "chess_server"
version = "0.1.0"
edition = "2021"
publish = false

[dependencies]
shakmaty = "=0.29.4"
argon2 = "=0.5.3"
rand = "=0.8.8"
uuid = { version = "=1.29.0", features = ["v4", "serde"] }
chrono = { version = "=0.4.45", features = ["serde"] }
serde = { version = "=1.0.229", features = ["derive"] }
serde_json = "=1.0.154"
axum = { version = "=0.7.9", features = ["ws"] }
tokio = { version = "=1.54.1", features = ["full"] }
sqlx = { version = "=0.8.6", default-features = false, features = ["runtime-tokio", "postgres", "uuid", "chrono", "derive"] }
jsonwebtoken = { version = "=10.4.0", default-features = false, features = ["rust_crypto"] }
tower-http = { version = "=0.5.2", features = ["cors"] }
utoipa = { version = "=5.5.0", features = ["axum_extras", "uuid", "chrono"] }
utoipa-axum = "=0.1.3"
tracing = "=0.1.44"
tracing-subscriber = { version = "=0.3.23", features = ["env-filter"] }
dotenvy = "=0.15.7"
futures-util = { version = "=0.3.34", features = ["sink"] }
