[package]
name = "sparklytics_server"
version = "0.1.0"
edition = "2021"
publish = false

[dependencies]
chrono = { version = "=0.4.45", default-features = false, features = ["std", "clock"] }
chrono-tz = "=0.10.4"
url = "=2.5.8"
ipnet = "=2.12.2"
psl = "=2.1.246"
sha2 = "=0.10.9"
hex = "=0.4.3"
rand = "=0.8.8"
base64 = "=0.22.1"
woothee = "=0.13.0"
argon2 = "=0.5.3"
csv = "=1.4.0"
maxminddb = "=0.32.0"
serde = { version = "=1.0.229", features = ["derive"] }
serde_json = "=1.0.154"
jsonwebtoken = "=9.3.1"
uuid = { version = "=1.29.0", features = ["v4"] }
svix = "=1.99.1"
http = "=1.5.0"
