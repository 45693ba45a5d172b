[package]
name = "hwinfo"
version = "0.1.0"
edition = "2021"
publish = false

[dependencies]
byte-unit = "4"
serde = { version = "1", features = ["derive"] }
winreg = "*"
wmi = "*"
