[package]
name = "filedrop"
version = "0.1.0"
edition = "2021"
publish = false

[dependencies]
base64 = "0.21"
hmac = "0.12"
sha2 = "0.10"
rand = "0.8"
infer = "0.15"
mime = "0.3"
mime_guess = "2"
constant_time_eq = "0.3"
bytes = "1"
actix-web = "4"
actix-files = "0.6"
actix-cors = "0.7"
actix-web-error = "*"
askama = "0.12"
clap = { version = "4", features = ["derive"] }
futures = "0.3"
humantime = "2"
multer = "3"
once_cell = "1"
serde = { version = "1", features = ["derive"] }
thiserror = "1"
tokio = { version = "1", features = ["fs", "io-util", "macros", "rt-multi-thread"] }
toml = "0.8"
tracing = "0.1"
tracing-actix-web = "0.7"
tracing-subscriber = { version = "0.3", features = ["env-filter"] }
