[package]
name = "weir"
version = "0.5.0"
edition = "2021"
publish = false

[dependencies]
toml_edit = "0.22"
toml = "0.8"
serde = { version = "1", features = ["derive"] }
serde_json = "1"
clap = { version = "4", features = ["derive"] }
tokio = { version = "1", features = ["full"] }
async-trait = "0.1"
tracing = "0.1"
tracing-subscriber = { version = "0.3", features = ["env-filter", "json"] }
thiserror = "2"
anyhow = "1"
arc-swap = "1"
notify = "8"
rmcp = { version = "*", features = ["server", "macros", "transport-io"] }
schemars = "1"

[dev-dependencies]
tempfile = "3"
