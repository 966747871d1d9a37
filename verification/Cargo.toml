[package]
name = "kcidb_restd_rs"
version = "0.1.0"
edition = "2021"
publish = false

[dependencies]
serde_json = "1"
jsonwebtoken = "9"
rand = "0.9"
serde = { version = "1", features = ["derive"] }
axum = "0.8"
axum-server = { version = "0.7", features = ["tls-rustls"] }
tokio = { version = "1", features = ["full"] }
clap = { version = "4", features = ["derive"] }
tower-http = { version = "0.6", features = ["limit"] }
nix = { version = "0.29", features = ["user"] }

[dev-dependencies]
tempfile = "3"
