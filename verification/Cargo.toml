[package]
name = "passvault"
version = "0.1.0"
edition = "2021"
publish = false

[dependencies]
rust-argon2 = "*"
aes-kw = "*"
base64-url = "*"
fernet = "*"
getrandom = "*"
chrono = "*"
csv = "*"
prettytable-rs = "*"
rpassword = "*"
rusqlite = { version = "*", features = ["bundled"] }
tokio = { version = "*", features = ["rt-multi-thread", "macros", "io-std", "io-util", "time"] }
