[package]
name = "stream_gears"
version = "0.1.0"
edition = "2021"
publish = false

[dependencies]
m3u8-rs = "*"
url = "2"
reqwest = { version = "0.12", default-features = false, features = ["blocking"] }
