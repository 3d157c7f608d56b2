[package]
name = "ic7300_cat"
version = "0.1.0"
edition = "2021"
publish = false

[dependencies]
crossbeam-channel = "0.5"
rusqlite = { version = "0.31", features = ["bundled"] }
serialport = { version = "4", default-features = false }
ureq = { version = "2", default-features = false }
