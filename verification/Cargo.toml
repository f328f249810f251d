[package]
name = "rust_rest_api"
version = "0.1.0"
edition = "2021"
publish = false

[dependencies]
rsa = "0.9"
base64 = "0.22"
rand = "0.8"
chrono = { version = "0.4", default-features = false, features = ["clock", "std", "serde"] }
axum = "0.8"
tokio = { version = "1", features = ["macros", "rt-multi-thread", "net", "signal", "fs", "io-util", "sync"] }
sqlx = { version = "0.8", default-features = false, features = ["runtime-tokio", "postgres", "chrono"] }
serde = { version = "1", features = ["derive"] }
serde_json = "1"
config = { version = "0.14", default-features = false, features = ["yaml"] }
log = "0.4"
log4rs = { version = "1", default-features = false, features = ["config_parsing", "yaml_format", "console_appender", "file_appender"] }
tower = "0.5"
hyper = "1"
http-body = "1"
bytes = "1"
thiserror = "2"
async-trait = "0.1"
