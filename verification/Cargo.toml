[package]
name = "hbbs_enterprise"
version = "0.1.0"
edition = "2021"
publish = false

[dependencies]
async-trait = "=0.1.92"
axum = "=0.7.9"
base64 = "=0.13.1"
bcrypt = "=0.15.1"
chrono = "=0.4.45"
clap = "=2.34.0"
crc32fast = "=1.5.3"
deadpool = "=0.9.5"
flate2 = "=1.1.10"
flexi_logger = { version = "=0.27.4", features = ["async"] }
image = { version = "=0.24.9", default-features = false, features = ["png"] }
ipnetwork = "=0.20.0"
jsonwebtoken = "=9.3.1"
local-ip-address = "=0.5.7"
log = "=0.4.34"
qrcode = { version = "=0.13.0", default-features = false, features = ["image"] }
rand = "=0.8.8"
rust-ini = "=0.20.0"
serde = { version = "=1.0.229", features = ["derive"] }
serde_json = "=1.0.154"
sha2 = "=0.10.9"
socket2 = "=0.6.5"
sodiumoxide = "=0.2.7"
sqlx = { version = "=0.7.4", default-features = false, features = ["sqlite", "runtime-tokio"] }
tokio = { version = "=1.54.1", features = ["full"] }
tokio-tungstenite = "=0.20.1"
totp-rs = "=5.7.2"
tower-http = { version = "=0.5.2", features = ["cors", "trace"] }
tungstenite = "=0.20.1"
uuid = { version = "=1.29.0", features = ["v4"] }
