[package]
name = "tasktrack"
version = "0.1.0"
edition = "2021"
publish = false

[dependencies]
time = "*"
uuid = { version = "*", features = ["v4"] }
