[package]
name = "gcode3d"
version = "0.1.0"
edition = "2021"
publish = false

[dependencies]
async-recursion = "1"
bcrypt = "*"
chrono = "0.4"
crossbeam-channel = "0.5"
futures = "0.3"
hyper = { version = "0.14", features = ["full"] }
hyper-staticfile = "0.9"
hyper-tls = "0.5"
hyper-tungstenite = "0.11"
lazy_static = "1"
rand = "0.8"
regex = "1"
serde = { version = "1", features = ["derive"] }
serde_json = "1"
serialport = { version = "4", default-features = false }
sqlx = { version = "0.7", default-features = false, features = ["runtime-tokio", "sqlite"] }
tokio = { version = "1", features = ["full"] }
uuid = { version = "0.8", features = ["v4"] }
zip = { version = "0.6", default-features = false, features = ["deflate"] }
