[package]
name = "payment_quotes"
version = "0.1.0"
edition = "2021"
publish = false

[dependencies]
custom_debug = "0.6"
rmp-serde = "1.1.1"
serde = { version = "1.0.133", features = ["derive"] }
xor_name = "5.0.0"
