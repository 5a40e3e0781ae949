[package]
name = "paykit"
version = "0.1.0"
edition = "2021"
publish = false

[dependencies]
hmac = "0.12"
sha2 = "0.10"
base64 = "0.22"
aes-gcm = "0.10"
argon2 = "0.5"
bcrypt = "0.15"
rand = "0.8"
urlencoding = "2"
jsonwebtoken = "9"
uuid = { version = "1", features = ["v4"] }
chrono = "0.4"
serde = { version = "1", features = ["derive"] }
serde_json = "1"
tokio = { version = "1", features = ["sync"] }
actix-web = { version = "4", default-features = false, features = ["macros"] }
actix-cors = "0.7"
async-trait = "0.1"
futures-util = "0.3"
thiserror = "1"
tracing = "0.1"
tracing-appender = "0.2"
tracing-subscriber = { version = "0.3", features = ["env-filter"] }
reqwest = { version = "0.12", default-features = false, features = ["json"] }
parking_lot = "0.12"
