[package]
name = "browser_tabs"
version = "0.1.0"
edition = "2021"
publish = false

[dependencies]
uuid = { version = "1", features = ["v4"] }
image = { version = "0.25", default-features = false, features = ["ico", "png", "jpeg", "gif", "bmp", "webp"] }
gtk4 = "0.9"
async-channel = "2"
tokio = { version = "1", features = ["rt-multi-thread", "time"] }
reqwest = "0.12"
colog = "1"
log = "0.4"
