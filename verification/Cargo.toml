[package]
name = "beankeeper"
version = "0.1.0"
edition = "2021"
publish = false

[dependencies]
anstyle = "*"
chrono = "*"
clap = { version = "4", features = ["derive", "env"] }
comfy-table = "*"
csv = "*"
data-encoding = "*"
ofx-rs = "*"
rpassword = "*"
rusqlite = { version = "*", features = ["bundled"] }
rust_decimal = "*"
secrecy = "*"
serde = { version = "1", features = ["derive"] }
serde_json = "*"
sha2 = "*"
