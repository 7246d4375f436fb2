[package]
name = "safe_deal"
version = "0.1.0"
edition = "2021"
publish = false

[dependencies]
gstd = "=2.0.0"
gmeta = "=1.7.1"
scale-info = { version = "=2.11.6", default-features = false, features = ["derive"] }
