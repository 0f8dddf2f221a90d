[package]
name = "amallgam"
version = "0.1.0"
edition = "2021"
publish = false

[dependencies]
url = "2"
rand = "0.9"
uuid = { version = "1", features = ["v7"] }
minijinja = "2"
activitypub_federation = { version = "0.6", default-features = false, features = ["axum"] }
anyhow = "1"
async-trait = "0.1"
axum = "0.7"
axum-server = { version = "0.7", features = ["tls-rustls-no-provider"] }
enum_delegate = "0.2"
futures = "0.3"
llama_cpp = "0.3"
log = "0.4"
moka = { version = "0.12", features = ["future"] }
num_cpus = "1"
reqwest-middleware = "0.4"
rustls = { version = "0.23", default-features = false, features = ["ring", "std", "tls12", "logging"] }
serde = { version = "1", features = ["derive"] }
serde_json = "1"
sqlx = { version = "0.8", default-features = false, features = ["runtime-tokio", "sqlite", "migrate", "macros"] }
tokio = { version = "1", features = ["full"] }
tower-http = { version = "0.6", features = ["trace"] }
tracing-subscriber = { version = "0.3", features = ["env-filter"] }
