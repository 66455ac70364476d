[package]
name = "jomai"
version = "0.1.0"
edition = "2021"
publish = false

[dependencies]
anyhow = "1"
async-channel = "=1.9.0"
chrono = { version = "=0.4.45", features = ["serde"] }
futures = "0.3"
itertools = "=0.10.5"
jwalk = "=0.8.1"
lingua = { version = "=1.8.0", default-features = false, features = ["japanese"] }
notify = "=5.2.0"
pulldown-cmark = { version = "=0.9.6", default-features = false }
serde = { version = "1", features = ["derive"] }
serde_yaml = "0.9"
sqlx = { version = "=0.6.3", features = ["sqlite", "runtime-tokio-rustls", "chrono"] }
tantivy = "=0.19.2"
thiserror = "1"
tokio = { version = "1", features = ["full"] }
toml = "=0.5.11"
tracing = "0.1"
unicode-jp = "=0.4.0"
unicode-normalization = "=0.1.26"

[dev-dependencies]
tempfile = "3"
