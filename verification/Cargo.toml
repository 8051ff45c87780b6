[package]
name = "rust_powered_lego"
version = "0.1.0"
edition = "2021"
publish = false

[dependencies]
anyhow = "1"
async-trait = "0.1"
btleplug = "*"
byteorder = "1"
num-traits = "0.2"
tokio = { version = "1", features = ["macros", "rt", "time"] }
tokio-stream = "0.1"
