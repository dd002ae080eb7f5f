[package]
name = "z2p"
version = "0.1.0"
edition = "2021"

[dependencies]
uuid = { version = "=1.27.0", features = ["v4"] }
config = "=0.15.27"
serde = { version = "=1.0.229", features = ["derive"] }
chrono = "=0.4.45"
sqlx = { version = "=0.9.0", default-features = false, features = ["runtime-tokio", "postgres", "migrate", "uuid", "chrono"] }
actix-web = { version = "=4.15.0", default-features = false, features = ["macros"] }
tracing = "=0.1.44"
tracing-subscriber = { version = "=0.3.23", features = ["env-filter"] }
tracing-bunyan-formatter = "=0.3.10"
tracing-log = "=0.2.0"
tracing-actix-web = "=0.7.25"
