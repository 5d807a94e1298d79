[package]
name = "log4you"
version = "0.1.0"
edition = "2021"
publish = false

[dependencies]
uuid = { version = "1", features = ["v7"] }
log = "0.4"
log4rs = "1"
once_cell = "1"
