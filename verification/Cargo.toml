[package]
name = "ozymandias"
version = "0.1.0"
edition = "2021"
publish = false

[dependencies]
async-trait = "0.1"
bollard = "0.18"
clap = { version = "4", features = ["derive"] }
error-stack = "0.5"
rdkafka = "0.37"
reqwest = { version = "0.12", default-features = false }
serde = { version = "1", features = ["derive"] }
testcontainers = "0.23"
testcontainers-modules = { version = "0.11", features = ["kafka"] }
thiserror = "2"
tokio = { version = "1", features = ["full"] }
toml = "0.8"
tracing = "0.1"
tracing-subscriber = { version = "0.3", features = ["env-filter"] }
wiremock = "0.6"
