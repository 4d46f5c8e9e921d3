[package]
name = "hyrule"
version = "0.1.0"
edition = "2021"
publish = false

[dependencies]
anyhow = "1"
axum = "0.7"
axum-extra = { version = "0.9", features = ["cookie"] }
base64 = "0.22"
blake3 = "1"
chrono = { version = "0.4", features = ["serde"] }
dotenvy = "0.15"
flate2 = "1"
hex = "0.4"
jsonwebtoken = "9"
lazy_static = "1"
moka = { version = "0.12", features = ["future"] }
pulldown-cmark = { version = "0.10", default-features = false, features = ["html"] }
rand = "0.8"
regex = "1"
reqwest = { version = "0.12", default-features = false }
serde = { version = "1", features = ["derive"] }
sqlx = { version = "0.7", default-features = false, features = ["runtime-tokio", "sqlite", "macros", "migrate"] }
subtle = "2"
time = "0.3"
tokio = { version = "1", features = ["full"] }
tower-http = { version = "0.5", features = ["compression-gzip", "cors", "fs", "trace"] }
tracing = "0.1"
tracing-subscriber = { version = "0.3", features = ["env-filter"] }
url = "2"
urlencoding = "2"
walkdir = "2"
