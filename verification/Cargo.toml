[package]
name = "event_service"
version = "0.1.0"
edition = "2021"
publish = false

[dependencies]
rustls = { version = "=0.23.46", default-features = false, features = ["std"] }
rustls-pemfile = "=2.2.0"
config = { version = "=0.15.27", default-features = false }
deadpool-postgres = { version = "=0.14.2", features = ["serde"] }
dotenvy = "=0.15.7"
ntex = "=3.3.0"
serde = { version = "=1.0.229", features = ["derive"] }
thiserror = "=2.0.21"
tokio-postgres = { version = "=0.7.18", features = ["with-uuid-1"] }
tokio-postgres-rustls = "=0.14.0"
uuid = { version = "=1.29.0", features = ["serde"] }
