[package]
name = "mas_handlers"
version = "0.1.0"
edition = "2021"
publish = false

[dependencies]
url = "=2.5.8"
serde = { version = "=1.0.229", features = ["derive"] }
serde_json = "=1.0.154"
warp = "=0.3.7"
axum = "=0.7.9"
axum-extra = { version = "=0.9.6", features = ["cookie-private"] }
