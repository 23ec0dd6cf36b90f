[package]
name = "spark_connect_proxy"
version = "0.1.0"
edition = "2021"
publish = false

[dependencies]
anyhow = "1"
async-trait = "0.1"
axum = "0.8"
base64 = "=0.22.1"
clap = { version = "4", features = ["derive"] }
env_logger = "0.11"
figment = { version = "0.10", features = ["yaml", "env"] }
futures = "0.3"
http = "=1.5.0"
hyper = { version = "1", features = ["client", "server", "http1", "http2"] }
hyper-util = { version = "0.1", features = ["tokio", "server", "server-auto", "service"] }
jsonwebtoken = "9"
jwks = "0.4"
local-ip-address = "=0.6.13"
log = "0.4"
reqwest = { version = "0.12", default-features = false, features = ["http2", "json", "charset"] }
rustls-pemfile = "2"
sea-orm = { version = "1.1", default-features = false, features = ["macros", "with-chrono", "sqlx-sqlite", "runtime-tokio"] }
sea-orm-migration = { version = "1.1", default-features = false, features = ["runtime-tokio", "sqlx-sqlite"] }
serde = { version = "1", features = ["derive"] }
tempfile = "3"
tokio = { version = "1", features = ["full"] }
tokio-rustls = { version = "0.26", default-features = false, features = ["ring", "tls12", "logging"] }
tower = { version = "0.5", features = ["util"] }
tower-http = { version = "0.6", features = ["auth"] }
url = "=2.5.8"
uuid = { version = "=1.29.0", features = ["v4"] }
which = "8"
whoami = "=1.6.1"
