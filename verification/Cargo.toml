[package]
name = "slmlib"
version = "0.1.0"
edition = "2021"
publish = false

[dependencies]
cordic = "*"
fixed = "*"
anyhow = "=1.0.104"
color-print = "=0.3.7"
libm = "=0.2.16"
serde = { version = "=1.0.229", features = ["derive"] }
serde_json = "=1.0.151"
xmlparser = "=0.13.6"
