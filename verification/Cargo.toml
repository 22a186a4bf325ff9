[package]
name = "chairgap"
version = "0.1.0"
edition = "2021"
publish = false

[dependencies]
percent-encoding = "2"
widestring = "0.4"
serde = { version = "1", features = ["derive"] }
once_cell = "1"
cocoa = "0.24"
objc = "0.2"
block = "0.1"
