[package]
name = "kong_ics"
version = "0.1.0"
edition = "2021"
publish = false

[dependencies]
candid = { version = "=0.10.37", features = ["value"] }
ic-agent = { version = "=0.49.2", features = ["pem"] }
tokio = { version = "*", features = ["full"] }
futures = "*"
reqwest = { version = "=0.13.5", default-features = false, features = ["json"] }
serde = { version = "*", features = ["derive"] }
thiserror = "*"
tracing = "*"
tracing-subscriber = { version = "*", features = ["env-filter"] }
dotenvy = "*"
