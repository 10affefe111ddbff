[package]
name = "kofl"
version = "0.1.0"
edition = "2021"
publish = false

[dependencies]
aes = "0.8"
ctr = "0.9"
hex = "0.4"
sha2 = "0.10"
rand = "0.8"
chrono = "0.4"
rusqlite = { version = "0.31", features = ["bundled"] }
arboard = { version = "3", default-features = false }
rpassword = "7"
toml = "0.8"
serde = { version = "1", features = ["derive"] }
log = "0.4"
