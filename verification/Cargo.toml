[package]
name = "fmbot"
version = "0.1.0"
edition = "2021"
publish = false

[dependencies]
md5 = "0.7"
serde = { version = "1", features = ["derive"] }
serde_json = "1"
serde-aux = "2"
reqwest = { version = "0.11", default-features = false, features = ["rustls-tls"] }
url = "2"
serenity = "0.10"
serenity_utils = "0.6"
sqlx = { version = "0.5", features = ["postgres", "runtime-tokio-rustls"] }
tokio = { version = "1", features = ["macros", "rt-multi-thread"] }
chrono = "0.4"
kankyo = "0.3"
log = "0.4"
tracing = "0.1"
tracing-subscriber = "0.2"
